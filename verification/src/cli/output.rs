//! The `--fields` filter of the command-line output.
//!
//! Every command prints one JSON document. `--fields` (a comma-separated
//! list of top-level keys) restricts an object to those keys, in the order
//! requested; an array is filtered element by element, its non-object
//! elements kept as they are. Anything else cannot be filtered, and asking
//! for it is an error.

use vstd::prelude::*;
use crate::text::{chars_of, joined, lemma_pieces_of_joined, split_pieces, str_eq, strings_view, trim_range, trimmed};

verus! {

/// A JSON document as it is printed: object keys keep their order and
/// numbers keep their written form.
#[derive(Debug)]
pub enum JsonValue {
    Null,
    Bool(bool),
    Number(String),
    String(String),
    Array(Vec<JsonValue>),
    Object(Vec<(String, JsonValue)>),
}

/// Why a document could not be printed.
#[derive(Debug)]
pub enum OutputError {
    /// The value could not be turned into JSON (the serializer's message).
    Serialize(String),
    /// Writing to the output failed (the system's message).
    Write(String),
    /// `--fields` was given (these fields) for a value that is neither an
    /// object nor an array.
    FilterInapplicable(Vec<String>),
}

/// The first entry of `es` under key `k`, as a map lookup finds it.
pub open spec fn find_entry(es: Seq<(String, JsonValue)>, k: Seq<char>) -> Option<(String, JsonValue)>
    decreases es.len(),
{
    if es.len() == 0 {
        None
    } else if es[0].0@ == k {
        Some(es[0])
    } else {
        find_entry(es.drop_first(), k)
    }
}

/// Whether some entry of `es` has key `k`.
pub open spec fn has_key(es: Seq<(String, JsonValue)>, k: Seq<char>) -> bool {
    exists|i: int| 0 <= i < es.len() && #[trigger] es[i].0@ == k
}

/// The entries of `es` kept by `fields`: for each field in turn, the entry
/// under that key when there is one and the field was not already taken.
pub open spec fn filtered(es: Seq<(String, JsonValue)>, fields: Seq<Seq<char>>) -> Seq<(String, JsonValue)>
    decreases fields.len(),
{
    if fields.len() == 0 {
        seq![]
    } else {
        let prev = filtered(es, fields.drop_last());
        let f = fields.last();
        if has_key(prev, f) {
            prev
        } else {
            match find_entry(es, f) {
                Some(e) => prev.push(e),
                None => prev,
            }
        }
    }
}

/// `y` is the array element `x` filtered by `fields`: an object keeps the
/// filtered entries, anything else is unchanged.
pub open spec fn element_filtered(x: JsonValue, y: JsonValue, fields: Seq<Seq<char>>) -> bool {
    match x {
        JsonValue::Object(es) => y matches JsonValue::Object(o) && o@ == filtered(es@, fields),
        _ => y == x,
    }
}

/// `r` is what [`apply_fields`] gives for `value` and `fields`.
pub open spec fn applied(value: JsonValue, fields: Seq<String>, r: Result<JsonValue, OutputError>) -> bool {
    match value {
        JsonValue::Object(es) => r matches Ok(JsonValue::Object(o)) && o@ == filtered(
            es@,
            strings_view(fields),
        ),
        JsonValue::Array(items) => r matches Ok(JsonValue::Array(out)) && out.len() == items.len()
            && forall|i: int|
            0 <= i < items.len() ==> element_filtered(
                #[trigger] items@[i],
                out@[i],
                strings_view(fields),
            ),
        _ => r matches Err(OutputError::FilterInapplicable(fs)) && fs@ == fields,
    }
}

proof fn lemma_find_at(es: Seq<(String, JsonValue)>, j: int, k: Seq<char>)
    requires
        0 <= j < es.len(),
        es[j].0@ == k,
        forall|i: int| 0 <= i < j ==> es[i].0@ != k,
    ensures
        find_entry(es, k) == Some(es[j]),
    decreases j,
{
    if j > 0 {
        lemma_find_at(es.drop_first(), j - 1, k);
        assert(es.drop_first()[j - 1] == es[j]);
    }
}

proof fn lemma_find_none(es: Seq<(String, JsonValue)>, k: Seq<char>)
    requires
        forall|i: int| 0 <= i < es.len() ==> es[i].0@ != k,
    ensures
        find_entry(es, k) is None,
    decreases es.len(),
{
    if es.len() > 0 {
        assert(es[0].0@ != k);
        assert forall|i: int| 0 <= i < es.drop_first().len() implies es.drop_first()[i].0@ != k by {
            assert(es.drop_first()[i] == es[i + 1]);
        }
        lemma_find_none(es.drop_first(), k);
    }
}

proof fn lemma_find_remove(es: Seq<(String, JsonValue)>, j: int, f: Seq<char>, k: Seq<char>)
    requires
        0 <= j < es.len(),
        es[j].0@ == f,
        k != f,
    ensures
        find_entry(es.remove(j), k) == find_entry(es, k),
    decreases j,
{
    if j == 0 {
        assert(es.remove(0) =~= es.drop_first());
    } else {
        assert(es.remove(j)[0] == es[0]);
        if es[0].0@ != k {
            assert(es.remove(j).drop_first() =~= es.drop_first().remove(j - 1));
            lemma_find_remove(es.drop_first(), j - 1, f, k);
        }
    }
}

/// Whether `es` has an entry under key `k`.
fn contains_key(es: &Vec<(String, JsonValue)>, k: &str) -> (r: bool)
    ensures
        r == has_key(es@, k@),
{
    let mut i: usize = 0;
    while i < es.len()
        invariant
            i <= es.len(),
            forall|j: int| 0 <= j < i ==> es@[j].0@ != k@,
        decreases es.len() - i,
    {
        if str_eq(es[i].0.as_str(), k) {
            assert(es@[i as int].0@ == k@);
            return true;
        }
        i = i + 1;
    }
    false
}

/// The index of the first entry of `es` under key `k`.
fn position_of(es: &Vec<(String, JsonValue)>, k: &str) -> (r: Option<usize>)
    ensures
        r matches Some(j) ==> j < es.len() && es@[j as int].0@ == k@ && forall|i: int|
            0 <= i < j ==> es@[i].0@ != k@,
        r is None ==> forall|i: int| 0 <= i < es.len() ==> es@[i].0@ != k@,
{
    let mut i: usize = 0;
    while i < es.len()
        invariant
            i <= es.len(),
            forall|j: int| 0 <= j < i ==> es@[j].0@ != k@,
        decreases es.len() - i,
    {
        if str_eq(es[i].0.as_str(), k) {
            return Some(i);
        }
        i = i + 1;
    }
    None
}

/// The entries of an object restricted to `fields`, in the order of
/// `fields`; a field given twice is taken once, a field the object lacks is
/// skipped.
pub fn filter_object(map: Vec<(String, JsonValue)>, fields: &[String]) -> (out: Vec<(String, JsonValue)>)
    ensures
        out@ == filtered(map@, strings_view(fields@)),
{
    let ghost orig = map@;
    let ghost fs = strings_view(fields@);
    let mut rest = map;
    let mut out: Vec<(String, JsonValue)> = Vec::new();
    let mut i: usize = 0;
    while i < fields.len()
        invariant
            i <= fields.len(),
            fs == strings_view(fields@),
            out@ == filtered(orig, fs.take(i as int)),
            forall|k: Seq<char>| !has_key(out@, k) ==> find_entry(rest@, k) == find_entry(orig, k),
        decreases fields.len() - i,
    {
        let f = fields[i].as_str();
        proof {
            assert(fs.take(i + 1).drop_last() =~= fs.take(i as int));
            assert(fs.take(i + 1).last() == f@);
        }
        if !contains_key(&out, f) {
            match position_of(&rest, f) {
                Some(j) => {
                    let ghost before = rest@;
                    let ghost out_before = out@;
                    proof {
                        lemma_find_at(before, j as int, f@);
                    }
                    let e = rest.remove(j);
                    out.push(e);
                    proof {
                        assert forall|k: Seq<char>| !has_key(out@, k) implies find_entry(rest@, k)
                            == find_entry(orig, k) by {
                            if k == f@ {
                                assert(out@[out@.len() - 1].0@ == f@);
                            } else {
                                if has_key(out_before, k) {
                                    let m = choose|m: int| 0 <= m < out_before.len() && #[trigger] out_before[m].0@ == k;
                                    assert(out@[m] == out_before[m]);
                                }
                                lemma_find_remove(before, j as int, f@, k);
                            }
                        }
                    }
                },
                None => {
                    proof {
                        lemma_find_none(rest@, f@);
                    }
                },
            }
        }
        i = i + 1;
    }
    proof {
        assert(fs.take(fields.len() as int) =~= fs);
    }
    out
}

/// The `--fields` filter: an object keeps the requested keys, in the order
/// requested; an array is filtered element by element; any other value is
/// refused with [`OutputError::FilterInapplicable`].
pub fn apply_fields(value: JsonValue, fields: &[String]) -> (r: Result<JsonValue, OutputError>)
    ensures
        applied(value, fields@, r),
{
    match value {
        JsonValue::Object(map) => Ok(JsonValue::Object(filter_object(map, fields))),
        JsonValue::Array(items) => {
            let ghost orig = items@;
            let mut rest = items;
            let mut out: Vec<JsonValue> = Vec::new();
            while rest.len() > 0
                invariant
                    out.len() + rest.len() == orig.len(),
                    rest@ == orig.skip(out.len() as int),
                    forall|i: int|
                        0 <= i < out.len() ==> element_filtered(
                            #[trigger] orig[i],
                            out@[i],
                            strings_view(fields@),
                        ),
                decreases rest.len(),
            {
                let x = rest.remove(0);
                let y = match x {
                    JsonValue::Object(m) => JsonValue::Object(filter_object(m, fields)),
                    other => other,
                };
                out.push(y);
                proof {
                    assert(rest@ =~= orig.skip(out.len() as int));
                }
            }
            Ok(JsonValue::Array(out))
        },
        other => {
            let mut fs: Vec<String> = Vec::new();
            let mut i: usize = 0;
            while i < fields.len()
                invariant
                    i <= fields.len(),
                    fs@ == fields@.take(i as int),
                decreases fields.len() - i,
            {
                fs.push(fields[i].clone());
                i = i + 1;
                proof {
                    assert(fs@ =~= fields@.take(i as int));
                }
            }
            proof {
                assert(fields@.take(fields.len() as int) =~= fields@);
            }
            Err(OutputError::FilterInapplicable(fs))
        },
    }
}

/// What is printed for `value`: the value itself when no field was asked
/// for, else the value filtered by [`apply_fields`].
pub fn select_fields(value: JsonValue, fields: &[String]) -> (r: Result<JsonValue, OutputError>)
    ensures
        fields.len() == 0 ==> r == Ok::<JsonValue, OutputError>(value),
        fields.len() > 0 ==> applied(value, fields@, r),
{
    if fields.len() == 0 {
        Ok(value)
    } else {
        apply_fields(value, fields)
    }
}

/// The pieces, trimmed, without those that are left empty.
pub open spec fn nonblank_trimmed(ps: Seq<Seq<char>>) -> Seq<Seq<char>>
    decreases ps.len(),
{
    if ps.len() == 0 {
        seq![]
    } else {
        let prev = nonblank_trimmed(ps.drop_last());
        let t = trimmed(ps.last());
        if t.len() > 0 {
            prev.push(t)
        } else {
            prev
        }
    }
}

/// The fields named by a `--fields` argument.
pub open spec fn parse_fields_spec(raw: Seq<char>) -> Seq<Seq<char>> {
    nonblank_trimmed(split_pieces(raw, ','))
}

/// Parse a comma-separated `--fields` argument: each piece trimmed of
/// white space, empty pieces dropped.
pub fn parse_fields(raw: &str) -> (out: Vec<String>)
    ensures
        strings_view(out@) == parse_fields_spec(raw@),
{
    let chars = chars_of(raw);
    let mut out: Vec<String> = Vec::new();
    let ghost mut done: Seq<Seq<char>> = seq![];
    let mut start: usize = 0;
    let mut i: usize = 0;
    proof {
        assert(chars@.take(0) =~= Seq::<char>::empty());
        assert(done.push(chars@.subrange(0, 0)) =~= seq![Seq::<char>::empty()]);
    }
    while i < chars.len()
        invariant
            start <= i <= chars.len(),
            split_pieces(chars@.take(i as int), ',') == done.push(chars@.subrange(start as int, i as int)),
            strings_view(out@) == nonblank_trimmed(done),
        decreases chars.len() - i,
    {
        let ghost piece = chars@.subrange(start as int, i as int);
        proof {
            assert(chars@.take(i + 1).drop_last() =~= chars@.take(i as int));
            assert(chars@.take(i + 1).last() == chars@[i as int]);
        }
        if chars[i] == ',' {
            let t = trim_range(&chars, start, i);
            if !t.as_str().is_empty() {
                out.push(t);
            }
            proof {
                assert(nonblank_trimmed(done.push(piece)).len() >= 0);
                assert(done.push(piece).drop_last() =~= done);
                assert(strings_view(out@) =~= nonblank_trimmed(done.push(piece)));
                done = done.push(piece);
                assert(chars@.subrange(i + 1, i + 1) =~= Seq::<char>::empty());
            }
            start = i + 1;
        } else {
            proof {
                assert(piece.push(chars@[i as int]) =~= chars@.subrange(start as int, i + 1));
                assert(done.push(piece).update(done.len() as int, piece.push(chars@[i as int])) =~= done.push(
                    chars@.subrange(start as int, i + 1),
                ));
            }
        }
        i = i + 1;
    }
    let ghost piece = chars@.subrange(start as int, chars.len() as int);
    let t = trim_range(&chars, start, chars.len());
    if !t.as_str().is_empty() {
        out.push(t);
    }
    proof {
        assert(done.push(piece).drop_last() =~= done);
        assert(strings_view(out@) =~= nonblank_trimmed(done.push(piece)));
        assert(chars@.take(chars.len() as int) =~= raw@);
    }
    out
}

proof fn lemma_nonblank_trimmed_keeps(fields: Seq<Seq<char>>)
    requires
        forall|i: int| 0 <= i < fields.len() ==> #[trigger] trimmed(fields[i]) == fields[i] && fields[i].len() > 0,
    ensures
        nonblank_trimmed(fields) == fields,
    decreases fields.len(),
{
    if fields.len() > 0 {
        lemma_nonblank_trimmed_keeps(fields.drop_last());
        assert(trimmed(fields[fields.len() - 1]) == fields[fields.len() - 1]);
        assert(fields.drop_last().push(fields.last()) =~= fields);
    }
}

/// Fields written with commas between them are read back as the same
/// fields, in the same order, when each is non-empty, holds no comma and
/// has no surrounding white space.
pub proof fn law_parse_fields_roundtrip(fields: Seq<Seq<char>>)
    requires
        forall|i: int| 0 <= i < fields.len() ==> #[trigger] trimmed(fields[i]) == fields[i] && fields[i].len() > 0,
        forall|i: int, k: int| 0 <= i < fields.len() && 0 <= k < fields[i].len() ==> #[trigger] fields[i][k] != ',',
    ensures
        parse_fields_spec(joined(fields, ',')) == fields,
{
    if fields.len() == 0 {
        assert(trimmed(Seq::<char>::empty()) =~= Seq::<char>::empty());
        assert(split_pieces(Seq::<char>::empty(), ',').drop_last() =~= Seq::<Seq<char>>::empty());
    } else {
        lemma_pieces_of_joined(fields, ',');
    }
    lemma_nonblank_trimmed_keeps(fields);
}

proof fn lemma_find_key(es: Seq<(String, JsonValue)>, k: Seq<char>)
    ensures
        find_entry(es, k) matches Some(e) ==> e.0@ == k && exists|i: int| 0 <= i < es.len() && es[i] == e,
    decreases es.len(),
{
    if es.len() > 0 && es[0].0@ != k {
        lemma_find_key(es.drop_first(), k);
        if find_entry(es, k) is Some {
            let i = choose|i: int| 0 <= i < es.drop_first().len() && es.drop_first()[i] == find_entry(es, k)->0;
            assert(es[i + 1] == es.drop_first()[i]);
        }
    }
}

/// What the filter keeps: only requested fields, each at most once, each
/// with the object's own entry; and every requested field that the object
/// has is kept.
pub proof fn law_filtered_entries(es: Seq<(String, JsonValue)>, fields: Seq<Seq<char>>)
    ensures
        forall|i: int|
            0 <= i < filtered(es, fields).len() ==> fields.contains(#[trigger] filtered(es, fields)[i].0@)
                && find_entry(es, filtered(es, fields)[i].0@) == Some(filtered(es, fields)[i]),
        forall|i: int, j: int|
            0 <= i < j < filtered(es, fields).len() ==> #[trigger] filtered(es, fields)[i].0@
                != #[trigger] filtered(es, fields)[j].0@,
        forall|i: int|
            0 <= i < fields.len() && (#[trigger] find_entry(es, fields[i])) is Some ==> has_key(
                filtered(es, fields),
                fields[i],
            ),
    decreases fields.len(),
{
    if fields.len() > 0 {
        let prev_fields = fields.drop_last();
        law_filtered_entries(es, prev_fields);
        let prev = filtered(es, prev_fields);
        let out = filtered(es, fields);
        let f = fields.last();
        lemma_find_key(es, f);
        assert forall|i: int| 0 <= i < out.len() implies fields.contains(#[trigger] out[i].0@) && find_entry(
            es,
            out[i].0@,
        ) == Some(out[i]) by {
            if i < prev.len() {
                assert(out[i] == prev[i]);
                assert(prev_fields.contains(prev[i].0@));
                let m = choose|m: int| 0 <= m < prev_fields.len() && prev_fields[m] == prev[i].0@;
                assert(fields[m] == prev_fields[m]);
            } else {
                assert(fields[fields.len() - 1] == f);
            }
        }
        assert forall|i: int, j: int| 0 <= i < j < out.len() implies #[trigger] out[i].0@ != #[trigger] out[j].0@ by {
            if j < prev.len() {
                assert(out[i] == prev[i] && out[j] == prev[j]);
            } else {
                assert(out[i] == prev[i]);
                if out[i].0@ == out[j].0@ {
                    assert(prev[i].0@ == f);
                }
            }
        }
        assert forall|i: int| 0 <= i < fields.len() && (#[trigger] find_entry(es, fields[i])) is Some implies has_key(
            out,
            fields[i],
        ) by {
            if i < fields.len() - 1 {
                assert(fields[i] == prev_fields[i]);
                assert(has_key(prev, fields[i]));
                let m = choose|m: int| 0 <= m < prev.len() && #[trigger] prev[m].0@ == fields[i];
                assert(out[m] == prev[m]);
            } else {
                if !has_key(prev, f) {
                    assert(out[out.len() - 1] == find_entry(es, f)->0);
                }
            }
        }
    }
}

proof fn lemma_filtered_congruent(x: Seq<(String, JsonValue)>, y: Seq<(String, JsonValue)>, fields: Seq<Seq<char>>)
    requires
        forall|i: int| 0 <= i < fields.len() ==> find_entry(x, #[trigger] fields[i]) == find_entry(y, fields[i]),
    ensures
        filtered(x, fields) == filtered(y, fields),
    decreases fields.len(),
{
    if fields.len() > 0 {
        assert forall|i: int| 0 <= i < fields.drop_last().len() implies find_entry(x, #[trigger] fields.drop_last()[i])
            == find_entry(y, fields.drop_last()[i]) by {
            assert(fields.drop_last()[i] == fields[i]);
        }
        lemma_filtered_congruent(x, y, fields.drop_last());
        assert(find_entry(x, fields[fields.len() - 1]) == find_entry(y, fields[fields.len() - 1]));
    }
}

/// Filtering twice by the same fields is filtering once.
pub proof fn law_filter_idempotent(es: Seq<(String, JsonValue)>, fields: Seq<Seq<char>>)
    ensures
        filtered(filtered(es, fields), fields) == filtered(es, fields),
{
    let out = filtered(es, fields);
    law_filtered_entries(es, fields);
    assert forall|i: int| 0 <= i < fields.len() implies find_entry(out, #[trigger] fields[i]) == find_entry(
        es,
        fields[i],
    ) by {
        let f = fields[i];
        lemma_find_key(es, f);
        if find_entry(es, f) is Some {
            assert(has_key(out, f));
            let m = choose|m: int| 0 <= m < out.len() && #[trigger] out[m].0@ == f;
            assert(find_entry(es, out[m].0@) == Some(out[m]));
            assert forall|q: int| 0 <= q < m implies out[q].0@ != f by {
                assert(out[q].0@ != out[m].0@);
            }
            lemma_find_at(out, m, f);
        } else {
            assert forall|q: int| 0 <= q < out.len() implies out[q].0@ != f by {
                if out[q].0@ == f {
                    assert(find_entry(es, out[q].0@) == Some(out[q]));
                }
            }
            lemma_find_none(out, f);
        }
    }
    lemma_filtered_congruent(out, es, fields);
}

} // verus!
