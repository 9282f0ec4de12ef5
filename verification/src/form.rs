//! `application/x-www-form-urlencoded` serialization of query strings, the
//! rule that `url::form_urlencoded` (behind `reqwest::Url::query_pairs_mut`)
//! applies: every byte of the UTF-8 encoding outside `*-._0-9A-Za-z` is
//! written as `%XX` with upper-case hex digits, except space, which becomes
//! `+`; pairs are written `name=value` and joined with `&`.

use vstd::prelude::*;
use vstd::utf8::encode_utf8;
use crate::text::{joined, lemma_pieces_of_joined, push_char, split_pieces};

verus! {

/// Bytes that the form encoding leaves as they are.
pub open spec fn form_unreserved(b: u8) -> bool {
    ||| b == 42  // '*'
    ||| b == 45  // '-'
    ||| b == 46  // '.'
    ||| (48 <= b && b <= 57)  // '0'..='9'
    ||| (65 <= b && b <= 90)  // 'A'..='Z'
    ||| b == 95  // '_'
    ||| (97 <= b && b <= 122)  // 'a'..='z'
}

/// Upper-case hexadecimal digit for `d` (`0 <= d < 16`).
pub open spec fn hex_upper(d: int) -> char {
    if d < 10 {
        (48 + d) as char
    } else {
        (55 + d) as char
    }
}

/// `%XX` for one byte.
pub open spec fn percent_byte(b: u8) -> Seq<char> {
    seq!['%', hex_upper(b as int / 16), hex_upper(b as int % 16)]
}

/// The form encoding of one byte.
pub open spec fn form_byte(b: u8) -> Seq<char> {
    if form_unreserved(b) {
        seq![b as char]
    } else if b == 32 {
        seq!['+']
    } else {
        percent_byte(b)
    }
}

/// The form encoding of a byte string.
pub open spec fn form_bytes(bs: Seq<u8>) -> Seq<char>
    decreases bs.len(),
{
    if bs.len() == 0 {
        seq![]
    } else {
        form_bytes(bs.drop_last()) + form_byte(bs.last())
    }
}

/// The form encoding of the UTF-8 text of `s`.
pub open spec fn form_component(s: Seq<char>) -> Seq<char> {
    form_bytes(encode_utf8(s))
}

/// `name=value`, both encoded.
pub open spec fn form_pair(p: (Seq<char>, Seq<char>)) -> Seq<char> {
    form_component(p.0) + seq!['='] + form_component(p.1)
}

/// The encoded pairs joined with `&`; empty for no pairs.
pub open spec fn form_query(pairs: Seq<(Seq<char>, Seq<char>)>) -> Seq<char>
    decreases pairs.len(),
{
    if pairs.len() == 0 {
        seq![]
    } else if pairs.len() == 1 {
        form_pair(pairs[0])
    } else {
        form_query(pairs.drop_last()) + seq!['&'] + form_pair(pairs.last())
    }
}

pub(crate) fn hex_digit(d: u8) -> (c: char)
    requires
        d < 16,
    ensures
        c == hex_upper(d as int),
{
    if d < 10 {
        (48 + d) as char
    } else {
        (55 + d) as char
    }
}

/// Appends the form encoding of `s` to `out`.
pub fn push_form_component(out: &mut String, s: &str)
    ensures
        final(out)@ == old(out)@ + form_component(s@),
{
    let bytes = s.as_bytes();
    let ghost bs = bytes@;
    assert(bs == encode_utf8(s@));
    let mut i: usize = 0;
    while i < bytes.len()
        invariant
            i <= bytes.len(),
            bytes@ == bs,
            out@ == old(out)@ + form_bytes(bs.take(i as int)),
        decreases bytes.len() - i,
    {
        let b = bytes[i];
        let ghost before = out@;
        if b == 42 || b == 45 || b == 46 || (48 <= b && b <= 57) || (65 <= b && b <= 90) || b
            == 95 || (97 <= b && b <= 122) {
            push_char(out, b as char);
        } else if b == 32 {
            push_char(out, '+');
        } else {
            push_char(out, '%');
            push_char(out, hex_digit(b / 16));
            push_char(out, hex_digit(b % 16));
        }
        assert(out@ =~= before + form_byte(b));
        assert(bs.take(i + 1).drop_last() =~= bs.take(i as int));
        i = i + 1;
    }
    assert(bs.take(bytes.len() as int) =~= bs);
}

/// Appends `name=value` (both encoded) to `out`.
pub fn push_form_pair(out: &mut String, name: &str, value: &str)
    ensures
        final(out)@ == old(out)@ + form_pair((name@, value@)),
{
    push_form_component(out, name);
    push_char(out, '=');
    push_form_component(out, value);
    assert(final(out)@ =~= old(out)@ + form_pair((name@, value@)));
}

/// A query string under construction, as `Url::query_pairs_mut` builds it:
/// pairs are appended in order, each encoded.
pub struct FormQuery {
    buf: String,
    started: bool,
    pairs: Ghost<Seq<(Seq<char>, Seq<char>)>>,
}

impl View for FormQuery {
    type V = Seq<(Seq<char>, Seq<char>)>;

    /// The pairs appended so far, in order.
    closed spec fn view(&self) -> Seq<(Seq<char>, Seq<char>)> {
        self.pairs@
    }
}

impl FormQuery {
    /// The text built so far is the encoding of the pairs appended so far.
    pub closed spec fn wf(self) -> bool {
        &&& self.buf@ == form_query(self.pairs@)
        &&& self.started == (self.pairs@.len() > 0)
    }

    /// An empty query.
    pub fn new() -> (q: Self)
        ensures
            q.wf(),
            q@ == Seq::<(Seq<char>, Seq<char>)>::empty(),
    {
        FormQuery { buf: String::new(), started: false, pairs: Ghost(Seq::empty()) }
    }

    /// Append `name=value`.
    pub fn append_pair(&mut self, name: &str, value: &str)
        requires
            old(self).wf(),
        ensures
            final(self).wf(),
            final(self)@ == old(self)@.push((name@, value@)),
    {
        let ghost before = self.pairs@;
        let mut buf = String::new();
        std::mem::swap(&mut buf, &mut self.buf);
        if self.started {
            push_char(&mut buf, '&');
        }
        push_form_pair(&mut buf, name, value);
        let ghost after = before.push((name@, value@));
        assert(after.drop_last() =~= before);
        assert(buf@ =~= form_query(after));
        self.buf = buf;
        self.started = true;
        self.pairs = Ghost(after);
    }

    /// The encoded query string.
    pub fn finish(self) -> (s: String)
        requires
            self.wf(),
        ensures
            s@ == form_query(self@),
    {
        self.buf
    }
}

/// A character that cannot end a name or a value in a query string.
pub open spec fn is_query_delimiter(c: char) -> bool {
    c == '&' || c == '=' || c == '#' || c == ' '
}

proof fn lemma_form_byte_delimiter_free(b: u8)
    ensures
        forall|k: int| 0 <= k < form_byte(b).len() ==> !is_query_delimiter(#[trigger] form_byte(b)[k]),
{
    let hi = b as int / 16;
    let lo = b as int % 16;
    assert(0 <= hi < 16 && 0 <= lo < 16);
    if form_unreserved(b) {
        assert(b != 38 && b != 61 && b != 35 && b != 32);
        assert((b as char) as int == b as int);
    }
}

proof fn lemma_form_bytes_delimiter_free(bs: Seq<u8>)
    ensures
        forall|k: int| 0 <= k < form_bytes(bs).len() ==> !is_query_delimiter(#[trigger] form_bytes(bs)[k]),
    decreases bs.len(),
{
    if bs.len() > 0 {
        lemma_form_bytes_delimiter_free(bs.drop_last());
        lemma_form_byte_delimiter_free(bs.last());
        let a = form_bytes(bs.drop_last());
        let b = form_byte(bs.last());
        assert forall|k: int| 0 <= k < form_bytes(bs).len() implies !is_query_delimiter(#[trigger] form_bytes(bs)[k]) by {
            if k < a.len() {
                assert(form_bytes(bs)[k] == a[k]);
            } else {
                assert(form_bytes(bs)[k] == b[k - a.len()]);
            }
        }
    }
}

/// An encoded name or value never holds `&`, `=`, `#` or a space, so no
/// value can end its pair early or add a pair of its own.
pub proof fn law_form_component_delimiter_free(s: Seq<char>)
    ensures
        forall|k: int| 0 <= k < form_component(s).len() ==> !is_query_delimiter(#[trigger] form_component(s)[k]),
{
    lemma_form_bytes_delimiter_free(encode_utf8(s));
}

/// The value of an upper-case hexadecimal digit.
pub open spec fn hex_value(c: char) -> int {
    if c <= '9' {
        c as int - 48
    } else {
        c as int - 55
    }
}

/// The bytes that a form-encoded component stands for: `+` is a space,
/// `%XX` the byte `XX`, any other character its own code.
pub open spec fn form_decode(s: Seq<char>) -> Seq<u8>
    decreases s.len(),
{
    if s.len() == 0 {
        seq![]
    } else if s[0] == '+' {
        seq![32u8] + form_decode(s.drop_first())
    } else if s[0] == '%' && s.len() >= 3 {
        seq![(hex_value(s[1]) * 16 + hex_value(s[2])) as u8] + form_decode(s.skip(3))
    } else {
        seq![s[0] as u8] + form_decode(s.drop_first())
    }
}

proof fn lemma_decode_byte(b: u8, rest: Seq<char>)
    ensures
        form_decode(form_byte(b) + rest) == seq![b] + form_decode(rest),
{
    let t = form_byte(b) + rest;
    if form_unreserved(b) {
        let c = b as char;
        assert(c as int == b as int);
        assert(c != '+' && c != '%');
        assert(t[0] == c);
        assert(t.drop_first() =~= rest);
        assert((c as u8) == b);
    } else if b == 32 {
        assert(t[0] == '+');
        assert(t.drop_first() =~= rest);
    } else {
        let hi = b as int / 16;
        let lo = b as int % 16;
        assert(0 <= hi < 16 && 0 <= lo < 16);
        assert(hex_value(hex_upper(hi)) == hi);
        assert(hex_value(hex_upper(lo)) == lo);
        assert(t[0] == '%' && t[1] == hex_upper(hi) && t[2] == hex_upper(lo));
        assert(t.skip(3) =~= rest);
        assert(hi * 16 + lo == b as int);
    }
}

proof fn lemma_decode_bytes(bs: Seq<u8>, rest: Seq<char>)
    ensures
        form_decode(form_bytes(bs) + rest) == bs + form_decode(rest),
    decreases bs.len(),
{
    if bs.len() == 0 {
        assert(form_bytes(bs) + rest =~= rest);
        assert(bs + form_decode(rest) =~= form_decode(rest));
    } else {
        let last = bs.last();
        lemma_decode_byte(last, rest);
        lemma_decode_bytes(bs.drop_last(), form_byte(last) + rest);
        assert(form_bytes(bs) + rest =~= form_bytes(bs.drop_last()) + (form_byte(last) + rest));
        assert(bs.drop_last() + (seq![last] + form_decode(rest)) =~= bs + form_decode(rest));
    }
}

/// Decoding an encoded name or value gives back the UTF-8 bytes of the
/// text: the encoding loses nothing.
pub proof fn law_form_component_decodes(s: Seq<char>)
    ensures
        form_decode(form_component(s)) == encode_utf8(s),
{
    lemma_decode_bytes(encode_utf8(s), Seq::empty());
    assert(form_component(s) + Seq::<char>::empty() =~= form_component(s));
    assert(encode_utf8(s) + form_decode(Seq::<char>::empty()) =~= encode_utf8(s));
}

/// The pairs that a query string stands for: the pieces between `&`, each
/// cut at `=` into a name and a value, both decoded; none for an empty
/// string.
pub open spec fn read_query(s: Seq<char>) -> Seq<(Seq<u8>, Seq<u8>)> {
    if s.len() == 0 {
        seq![]
    } else {
        split_pieces(s, '&').map_values(
            |piece: Seq<char>|
                (form_decode(split_pieces(piece, '=')[0]), form_decode(split_pieces(piece, '=')[1])),
        )
    }
}

proof fn lemma_query_joined(pairs: Seq<(Seq<char>, Seq<char>)>)
    ensures
        form_query(pairs) == joined(pairs.map_values(|p: (Seq<char>, Seq<char>)| form_pair(p)), '&'),
    decreases pairs.len(),
{
    let ps = pairs.map_values(|p: (Seq<char>, Seq<char>)| form_pair(p));
    if pairs.len() > 1 {
        lemma_query_joined(pairs.drop_last());
        assert(pairs.drop_last().map_values(|p: (Seq<char>, Seq<char>)| form_pair(p)) =~= ps.drop_last());
    } else if pairs.len() == 1 {
        assert(ps[0] == form_pair(pairs[0]));
    }
}

proof fn lemma_pair_pieces(p: (Seq<char>, Seq<char>))
    ensures
        forall|k: int| 0 <= k < form_pair(p).len() ==> #[trigger] form_pair(p)[k] != '&',
        split_pieces(form_pair(p), '=') == seq![form_component(p.0), form_component(p.1)],
{
    let a = form_component(p.0);
    let b = form_component(p.1);
    law_form_component_delimiter_free(p.0);
    law_form_component_delimiter_free(p.1);
    let w = form_pair(p);
    assert forall|k: int| 0 <= k < w.len() implies #[trigger] w[k] != '&' by {
        if k < a.len() {
            assert(w[k] == a[k]);
        } else if k > a.len() {
            assert(w[k] == b[k - a.len() - 1]);
        }
    }
    let parts = seq![a, b];
    assert forall|i: int, k: int| 0 <= i < parts.len() && 0 <= k < parts[i].len() implies #[trigger] parts[i][k]
        != '=' by {
        if i == 0 {
            assert(!is_query_delimiter(a[k]));
        } else {
            assert(!is_query_delimiter(b[k]));
        }
    }
    lemma_pieces_of_joined(parts, '=');
    assert(parts.drop_last() =~= seq![a]);
    assert(joined(parts.drop_last(), '=') == a);
    assert(parts.last() == b);
    assert(joined(parts, '=') == a + seq!['='] + b);
    assert(a + seq!['='] + b =~= w);
}

/// Reading back an encoded query string gives the pairs that were written,
/// in order, each name and value as its UTF-8 bytes.
pub proof fn law_form_query_reads_back(pairs: Seq<(Seq<char>, Seq<char>)>)
    ensures
        read_query(form_query(pairs)) == pairs.map_values(
            |p: (Seq<char>, Seq<char>)| (encode_utf8(p.0), encode_utf8(p.1)),
        ),
{
    let ps = pairs.map_values(|p: (Seq<char>, Seq<char>)| form_pair(p));
    let want = pairs.map_values(|p: (Seq<char>, Seq<char>)| (encode_utf8(p.0), encode_utf8(p.1)));
    lemma_query_joined(pairs);
    if pairs.len() == 0 {
        assert(want =~= Seq::<(Seq<u8>, Seq<u8>)>::empty());
    } else {
        assert forall|i: int, k: int| 0 <= i < ps.len() && 0 <= k < ps[i].len() implies #[trigger] ps[i][k] != '&' by {
            lemma_pair_pieces(pairs[i]);
        }
        lemma_pieces_of_joined(ps, '&');
        let q = form_query(pairs);
        lemma_pair_pieces(pairs[0]);
        assert(ps[0].len() > 0);
        assert(q.len() > 0) by {
            if pairs.len() > 1 {
                assert(joined(ps, '&') == joined(ps.drop_last(), '&') + seq!['&'] + ps.last());
            }
        }
        let got = read_query(q);
        assert forall|i: int| 0 <= i < pairs.len() implies #[trigger] got[i] == want[i] by {
            lemma_pair_pieces(pairs[i]);
            law_form_component_decodes(pairs[i].0);
            law_form_component_decodes(pairs[i].1);
        }
        assert(got =~= want);
    }
}

} // verus!
