//! Reading a tradable key `<market_id>:<identifier>` from the command line.

use vstd::prelude::*;
use crate::ids::{MarketId, TradableId};
use crate::models::tradables::{TradableKey, tradable_key_text};
use crate::text::{
    chars_of,
    int_decimal,
    is_digit,
    lemma_int_decimal_chars,
    law_i64_decimal_roundtrip,
    parse_i64_range,
    parse_i64_spec,
    string_from_chars,
};

verus! {

/// Why a tradable key was refused (the argument as given).
#[derive(Debug, Clone, PartialEq, Eq)]
pub enum TradableKeyError {
    /// There is no `:`.
    MissingSeparator(String),
    /// What stands before the first `:` is not an `i64`.
    InvalidMarketId(String),
}

/// `s` cut at its first `:`, as `str::split_once(':')` cuts it.
pub open spec fn split_at_first_colon(s: Seq<char>) -> Option<(Seq<char>, Seq<char>)>
    decreases s.len(),
{
    if s.len() == 0 {
        None
    } else if s[0] == ':' {
        Some((Seq::empty(), s.drop_first()))
    } else {
        match split_at_first_colon(s.drop_first()) {
            Some(p) => Some((seq![s[0]] + p.0, p.1)),
            None => None,
        }
    }
}

/// The market id and identifier that a key argument names, if it names
/// one.
pub open spec fn tradable_key_parts(s: Seq<char>) -> Option<(i64, Seq<char>)> {
    match split_at_first_colon(s) {
        Some(p) => match parse_i64_spec(p.0) {
            Some(m) => Some((m, p.1)),
            None => None,
        },
        None => None,
    }
}

proof fn lemma_split_at(s: Seq<char>, i: int)
    requires
        0 <= i < s.len(),
        s[i] == ':',
        forall|j: int| 0 <= j < i ==> s[j] != ':',
    ensures
        split_at_first_colon(s) == Some((s.take(i), s.skip(i + 1))),
    decreases i,
{
    if i == 0 {
        assert(s.take(0) =~= Seq::<char>::empty());
        assert(s.drop_first() =~= s.skip(1));
    } else {
        lemma_split_at(s.drop_first(), i - 1);
        assert(seq![s[0]] + s.drop_first().take(i - 1) =~= s.take(i));
        assert(s.drop_first().skip(i) =~= s.skip(i + 1));
    }
}

proof fn lemma_split_none(s: Seq<char>)
    requires
        forall|j: int| 0 <= j < s.len() ==> s[j] != ':',
    ensures
        split_at_first_colon(s) is None,
    decreases s.len(),
{
    if s.len() > 0 {
        assert(s[0] != ':');
        assert forall|j: int| 0 <= j < s.drop_first().len() implies s.drop_first()[j] != ':' by {
            assert(s.drop_first()[j] == s[j + 1]);
        }
        lemma_split_none(s.drop_first());
    }
}

/// Parse `<market_id>:<identifier>`: the text before the first `:` is the
/// market id, everything after it the identifier.
pub fn parse_tradable_key(s: &str) -> (r: Result<TradableKey, TradableKeyError>)
    ensures
        match tradable_key_parts(s@) {
            Some(p) => r matches Ok(k) && k.market_id.0 == p.0 && k.identifier.0@ == p.1,
            None => r is Err,
        },
        r matches Err(TradableKeyError::MissingSeparator(t)) ==> t@ == s@ && split_at_first_colon(s@) is None,
        r matches Err(TradableKeyError::InvalidMarketId(t)) ==> t@ == s@ && split_at_first_colon(s@) is Some,
{
    let chars = chars_of(s);
    let mut i: usize = 0;
    while i < chars.len() && chars[i] != ':'
        invariant
            i <= chars.len(),
            chars@ == s@,
            forall|j: int| 0 <= j < i ==> chars@[j] != ':',
        decreases chars.len() - i,
    {
        i = i + 1;
    }
    if i == chars.len() {
        proof {
            lemma_split_none(s@);
        }
        return Err(TradableKeyError::MissingSeparator(s.to_owned()));
    }
    proof {
        lemma_split_at(s@, i as int);
        assert(chars@.subrange(0, i as int) =~= s@.take(i as int));
    }
    match parse_i64_range(&chars, 0, i) {
        Some(m) => {
            let mut ident: Vec<char> = Vec::new();
            let mut j: usize = i + 1;
            while j < chars.len()
                invariant
                    i + 1 <= j <= chars.len(),
                    ident@ == chars@.subrange(i + 1, j as int),
                decreases chars.len() - j,
            {
                ident.push(chars[j]);
                j = j + 1;
                proof {
                    assert(ident@ =~= chars@.subrange(i + 1, j as int));
                }
            }
            proof {
                assert(chars@.subrange(i + 1, chars.len() as int) =~= s@.skip(i + 1));
            }
            let identifier = string_from_chars(&ident);
            Ok(TradableKey { market_id: MarketId(m), identifier: TradableId(identifier) })
        },
        None => Err(TradableKeyError::InvalidMarketId(s.to_owned())),
    }
}

/// A key written out as `Display` writes it is read back as the same key.
pub proof fn law_tradable_key_roundtrip(k: TradableKey)
    ensures
        tradable_key_parts(tradable_key_text(k)) == Some((k.market_id.0, k.identifier.0@)),
{
    let d = int_decimal(k.market_id.0 as int);
    let s = tradable_key_text(k);
    lemma_int_decimal_chars(k.market_id.0 as int);
    assert forall|j: int| 0 <= j < d.len() implies s[j] != ':' by {
        assert(s[j] == d[j]);
        assert(is_digit(d[j]) || d[j] == '-');
    }
    assert(s[d.len() as int] == ':');
    lemma_split_at(s, d.len() as int);
    assert(s.take(d.len() as int) =~= d);
    assert(s.skip(d.len() as int + 1) =~= k.identifier.0@);
    law_i64_decimal_roundtrip(k.market_id.0);
}

} // verus!
