//! The `main_search` group: `GET /main_search`.
//!
//! `query` is required; `instrument_group` repeats once per value; `limit`,
//! `offset` and `search_space` are optional. A blank 2xx body (204, or the
//! body-less 404) is read as an empty list.

use vstd::prelude::*;
use vstd::utf8::encode_utf8;
use crate::client::{ApiRequest, BlankBody, Client, is_get};
use crate::form::{FormQuery, form_query, hex_upper, hex_value, percent_byte};
use crate::resources::instrument_search::opt_int_text;
use crate::resources::text_pair;
use crate::text::{i64_to_string, opt_text_view, push_char, push_str};

verus! {

/// The pairs of [`build_search_query`], in wire order.
pub open spec fn search_pairs(
    query: Seq<char>,
    instrument_group: Option<Seq<&str>>,
    limit: Option<i32>,
    offset: Option<i32>,
    search_space: Option<&str>,
) -> Seq<(Seq<char>, Seq<char>)> {
    seq![("query"@, query)] + match instrument_group {
        Some(groups) => groups.map_values(|g: &str| ("instrument_group"@, g@)),
        None => seq![],
    } + text_pair("limit"@, opt_int_text(limit)) + text_pair("offset"@, opt_int_text(offset))
        + text_pair("search_space"@, opt_text_view(search_space))
}

fn append_opt_int(q: &mut FormQuery, name: &str, value: Option<i32>)
    requires
        old(q).wf(),
    ensures
        final(q).wf(),
        final(q)@ == old(q)@ + text_pair(name@, opt_int_text(value)),
{
    if let Some(v) = value {
        let t = i64_to_string(v as i64);
        q.append_pair(name, t.as_str());
    }
    assert(final(q)@ =~= old(q)@ + text_pair(name@, opt_int_text(value)));
}

/// The encoded query string of [`Client::search`].
pub fn build_search_query(
    query: &str,
    instrument_group: Option<&[&str]>,
    limit: Option<i32>,
    offset: Option<i32>,
    search_space: Option<&str>,
) -> (s: String)
    ensures
        s@ == form_query(
            search_pairs(
                query@,
                match instrument_group {
                    Some(g) => Some(g@),
                    None => None,
                },
                limit,
                offset,
                search_space,
            ),
        ),
{
    let mut q = FormQuery::new();
    q.append_pair("query", query);
    let ghost after_query = q@;
    if let Some(groups) = instrument_group {
        let mut i: usize = 0;
        while i < groups.len()
            invariant
                i <= groups.len(),
                q.wf(),
                q@ == after_query + groups@.take(i as int).map_values(
                    |g: &str| ("instrument_group"@, g@),
                ),
            decreases groups.len() - i,
        {
            q.append_pair("instrument_group", groups[i]);
            i = i + 1;
            assert(groups@.take(i as int).map_values(|g: &str| ("instrument_group"@, g@))
                =~= groups@.take(i - 1).map_values(|g: &str| ("instrument_group"@, g@)).push(
                ("instrument_group"@, groups@[i - 1]@),
            ));
        }
        assert(groups@.take(groups.len() as int) =~= groups@);
    }
    let ghost after_groups = q@;
    append_opt_int(&mut q, "limit", limit);
    append_opt_int(&mut q, "offset", offset);
    if let Some(s) = search_space {
        q.append_pair("search_space", s);
    }
    assert(q@ =~= search_pairs(
        query@,
        match instrument_group {
            Some(g) => Some(g@),
            None => None,
        },
        limit,
        offset,
        search_space,
    ));
    q.finish()
}

/// Bytes left as they are by [`urlencoding_minimal`]: `A-Z a-z 0-9 - _ . ~`.
pub open spec fn minimal_unreserved(b: u8) -> bool {
    ||| (65 <= b && b <= 90)
    ||| (97 <= b && b <= 122)
    ||| (48 <= b && b <= 57)
    ||| b == 45
    ||| b == 95
    ||| b == 46
    ||| b == 126
}

/// Percent-encoding of a byte string with the unreserved set of RFC 3986.
pub open spec fn minimal_encoding(bs: Seq<u8>) -> Seq<char>
    decreases bs.len(),
{
    if bs.len() == 0 {
        seq![]
    } else {
        minimal_encoding(bs.drop_last()) + if minimal_unreserved(bs.last()) {
            seq![bs.last() as char]
        } else {
            percent_byte(bs.last())
        }
    }
}

/// Percent-encode the UTF-8 bytes of `s`, keeping only `A-Z a-z 0-9 - _ . ~`
/// and writing every other byte as `%XX` (upper-case hex).
pub fn urlencoding_minimal(s: &str) -> (out: String)
    ensures
        out@ == minimal_encoding(vstd::utf8::encode_utf8(s@)),
{
    let bytes = s.as_bytes();
    let ghost bs = bytes@;
    let mut out = String::new();
    let mut i: usize = 0;
    while i < bytes.len()
        invariant
            i <= bytes.len(),
            bytes@ == bs,
            bs == vstd::utf8::encode_utf8(s@),
            out@ == minimal_encoding(bs.take(i as int)),
        decreases bytes.len() - i,
    {
        let b = bytes[i];
        let ghost before = out@;
        if (65 <= b && b <= 90) || (97 <= b && b <= 122) || (48 <= b && b <= 57) || b == 45 || b
            == 95 || b == 46 || b == 126 {
            push_char(&mut out, b as char);
        } else {
            push_char(&mut out, '%');
            push_char(&mut out, crate::form::hex_digit(b / 16));
            push_char(&mut out, crate::form::hex_digit(b % 16));
        }
        assert(bs.take(i + 1).drop_last() =~= bs.take(i as int));
        i = i + 1;
        assert(out@ =~= minimal_encoding(bs.take(i as int)));
    }
    assert(bs.take(bytes.len() as int) =~= bs);
    out
}

impl Client {
    /// `GET /main_search` — search instruments and more.
    pub fn search(
        &self,
        query: &str,
        instrument_group: Option<&[&str]>,
        limit: Option<i32>,
        offset: Option<i32>,
        search_space: Option<&str>,
    ) -> (r: ApiRequest<()>)
        ensures
            is_get(
                r,
                "/main_search?"@ + form_query(
                    search_pairs(
                        query@,
                        match instrument_group {
                            Some(g) => Some(g@),
                            None => None,
                        },
                        limit,
                        offset,
                        search_space,
                    ),
                ),
                BlankBody::EmptyResult,
            ),
    {
        let qs = build_search_query(query, instrument_group, limit, offset, search_space);
        let mut path = String::new();
        push_str(&mut path, "/main_search?");
        push_str(&mut path, qs.as_str());
        self.get(path.as_str()).empty_on_blank()
    }
}

/// The bytes that a percent-encoded text stands for: `%XX` is the byte
/// `XX`, any other character its own code.
pub open spec fn percent_decode(s: Seq<char>) -> Seq<u8>
    decreases s.len(),
{
    if s.len() == 0 {
        seq![]
    } else if s[0] == '%' && s.len() >= 3 {
        seq![(hex_value(s[1]) * 16 + hex_value(s[2])) as u8] + percent_decode(s.skip(3))
    } else {
        seq![s[0] as u8] + percent_decode(s.drop_first())
    }
}

proof fn lemma_minimal_decodes(bs: Seq<u8>, rest: Seq<char>)
    ensures
        percent_decode(minimal_encoding(bs) + rest) == bs + percent_decode(rest),
    decreases bs.len(),
{
    if bs.len() == 0 {
        assert(minimal_encoding(bs) + rest =~= rest);
        assert(bs + percent_decode(rest) =~= percent_decode(rest));
    } else {
        let b = bs.last();
        let piece = if minimal_unreserved(b) {
            seq![b as char]
        } else {
            percent_byte(b)
        };
        let t = piece + rest;
        if minimal_unreserved(b) {
            let c = b as char;
            assert(c as int == b as int);
            assert(c != '%');
            assert(t[0] == c);
            assert(t.drop_first() =~= rest);
        } else {
            let hi = b as int / 16;
            let lo = b as int % 16;
            assert(0 <= hi < 16 && 0 <= lo < 16);
            assert(hex_value(hex_upper(hi)) == hi);
            assert(hex_value(hex_upper(lo)) == lo);
            assert(t[0] == '%' && t[1] == hex_upper(hi) && t[2] == hex_upper(lo));
            assert(t.skip(3) =~= rest);
        }
        assert(percent_decode(t) == seq![b] + percent_decode(rest));
        lemma_minimal_decodes(bs.drop_last(), t);
        assert(minimal_encoding(bs) + rest =~= minimal_encoding(bs.drop_last()) + t);
        assert(bs.drop_last() + (seq![b] + percent_decode(rest)) =~= bs + percent_decode(rest));
    }
}

/// Percent-decoding the minimal encoding of a text gives back its UTF-8
/// bytes.
pub proof fn law_minimal_encoding_decodes(s: Seq<char>)
    ensures
        percent_decode(minimal_encoding(encode_utf8(s))) == encode_utf8(s),
{
    lemma_minimal_decodes(encode_utf8(s), Seq::empty());
    assert(minimal_encoding(encode_utf8(s)) + Seq::<char>::empty() =~= minimal_encoding(encode_utf8(s)));
    assert(encode_utf8(s) + percent_decode(Seq::<char>::empty()) =~= encode_utf8(s));
}

} // verus!
