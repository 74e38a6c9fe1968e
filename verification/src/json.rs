//! A small JSON document model.
//!
//! The wire protocol exchanges JSON objects.  The engine builds and inspects
//! documents through [`JsonValue`]; its mathematical model is [`JsonRep`],
//! reached by `rep_of`.  `json_text` states exactly which characters a
//! document serializes to, and `to_text` produces them.

use vstd::prelude::*;

verus! {

/// A JSON document.
///
/// Non-integer numbers are carried verbatim as their literal text in the
/// `Real` variant; the engine itself never computes with them.
/// An object is a sequence of key/value entries; when a key occurs twice the
/// later entry wins on lookup, as it does for the servers this protocol
/// speaks to.
#[derive(Debug, PartialEq)]
pub enum JsonValue {
    Null,
    Bool(bool),
    Int(i128),
    Real(String),
    Str(String),
    Arr(Vec<JsonValue>),
    Obj(Vec<(String, JsonValue)>),
}

/// The mathematical model of a JSON document: strings become character
/// sequences, collections become sequences.
#[verifier::ext_equal]
pub enum JsonRep {
    Null,
    Bool(bool),
    Int(int),
    Real(Seq<char>),
    Str(Seq<char>),
    Arr(Seq<JsonRep>),
    Obj(Seq<(Seq<char>, JsonRep)>),
}

/// The model of a document value.
pub open spec fn rep_of(v: JsonValue) -> JsonRep
    decreases v,
{
    match v {
        JsonValue::Null => JsonRep::Null,
        JsonValue::Bool(b) => JsonRep::Bool(b),
        JsonValue::Int(i) => JsonRep::Int(i as int),
        JsonValue::Real(s) => JsonRep::Real(s@),
        JsonValue::Str(s) => JsonRep::Str(s@),
        JsonValue::Arr(items) => JsonRep::Arr(
            Seq::new(
                items@.len(),
                |i: int|
                    if 0 <= i < items@.len() {
                        rep_of(items@[i])
                    } else {
                        JsonRep::Null
                    },
            ),
        ),
        JsonValue::Obj(entries) => JsonRep::Obj(
            Seq::new(
                entries@.len(),
                |i: int|
                    if 0 <= i < entries@.len() {
                        (entries@[i].0@, rep_of(entries@[i].1))
                    } else {
                        (Seq::empty(), JsonRep::Null)
                    },
            ),
        ),
    }
}

/// The models of the elements of an array.
pub open spec fn reps_of(items: Seq<JsonValue>) -> Seq<JsonRep> {
    Seq::new(items.len(), |i: int| rep_of(items[i]))
}

/// The models of the entries of an object.
pub open spec fn entry_reps_of(entries: Seq<(String, JsonValue)>) -> Seq<(Seq<char>, JsonRep)> {
    Seq::new(entries.len(), |i: int| (entries[i].0@, rep_of(entries[i].1)))
}

/// The value bound to `key` in an entry list, the last occurrence winning.
pub open spec fn lookup_in(entries: Seq<(Seq<char>, JsonRep)>, key: Seq<char>) -> Option<JsonRep>
    decreases entries.len(),
{
    if entries.len() == 0 {
        None
    } else if entries.last().0 == key {
        Some(entries.last().1)
    } else {
        lookup_in(entries.drop_last(), key)
    }
}

/// The value bound to `key` when `v` is an object; `None` otherwise.
pub open spec fn obj_lookup(v: JsonRep, key: Seq<char>) -> Option<JsonRep> {
    match v {
        JsonRep::Obj(entries) => lookup_in(entries, key),
        _ => None,
    }
}

/// Finds the entry for `key`, scanning from the end so that the last
/// occurrence of a repeated key wins.
pub fn lookup<'a>(entries: &'a Vec<(String, JsonValue)>, key: &String) -> (r: Option<
    &'a JsonValue,
>)
    ensures
        match r {
            Some(x) => lookup_in(entry_reps_of(entries@), key@) == Some(rep_of(*x)),
            None => lookup_in(entry_reps_of(entries@), key@) is None,
        },
{
    let mut i: usize = entries.len();
    proof {
        assert(entry_reps_of(entries@).take(i as int) =~= entry_reps_of(entries@));
    }
    while i > 0
        invariant
            i <= entries.len(),
            entry_reps_of(entries@).len() == entries@.len(),
            lookup_in(entry_reps_of(entries@), key@) == lookup_in(
                entry_reps_of(entries@).take(i as int),
                key@,
            ),
        decreases i,
    {
        i = i - 1;
        proof {
            assert(entry_reps_of(entries@).take(i + 1).last() == entry_reps_of(entries@)[i as int]);
            assert(entry_reps_of(entries@).take(i + 1).drop_last() =~= entry_reps_of(
                entries@,
            ).take(i as int));
        }
        if entries[i].0 == *key {
            return Some(&entries[i].1);
        }
    }
    proof {
        assert(entry_reps_of(entries@).take(0) =~= Seq::<(Seq<char>, JsonRep)>::empty());
    }
    None
}

/// The decimal digits of `n`, most significant first.
pub open spec fn dec_digits_text(n: nat) -> Seq<char>
    decreases n,
{
    if n < 10 {
        seq![digit_char(n as int)]
    } else {
        dec_digits_text(n / 10) + seq![digit_char((n % 10) as int)]
    }
}

/// The decimal digit character for `0 <= n <= 9`.
pub open spec fn digit_char(n: int) -> char {
    if n == 0 {
        '0'
    } else if n == 1 {
        '1'
    } else if n == 2 {
        '2'
    } else if n == 3 {
        '3'
    } else if n == 4 {
        '4'
    } else if n == 5 {
        '5'
    } else if n == 6 {
        '6'
    } else if n == 7 {
        '7'
    } else if n == 8 {
        '8'
    } else {
        '9'
    }
}

/// The hexadecimal digit character for `0 <= n <= 15`, lower case.
pub open spec fn hex_digit_char(n: int) -> char {
    if n < 10 {
        digit_char(n)
    } else if n == 10 {
        'a'
    } else if n == 11 {
        'b'
    } else if n == 12 {
        'c'
    } else if n == 13 {
        'd'
    } else if n == 14 {
        'e'
    } else {
        'f'
    }
}

/// The decimal text of `i`, with a leading minus sign when negative.
pub open spec fn int_text(i: int) -> Seq<char> {
    if i >= 0 {
        dec_digits_text(i as nat)
    } else {
        seq!['-'] + dec_digits_text((-i) as nat)
    }
}

/// How one character appears inside a JSON string literal: quote and
/// backslash are backslash-escaped, control characters take the `\u00XX`
/// form, and every other character stands for itself.
pub open spec fn escaped_char(c: char) -> Seq<char> {
    if c == '"' {
        seq!['\\', '"']
    } else if c == '\\' {
        seq!['\\', '\\']
    } else if (c as u32) < 32 {
        seq!['\\', 'u', '0', '0', hex_digit_char((c as u32) as int / 16), hex_digit_char(
            (c as u32) as int % 16,
        )]
    } else {
        seq![c]
    }
}

/// The body of a JSON string literal for `s`, from position `i` on.
pub open spec fn escaped_from(s: Seq<char>, i: int) -> Seq<char>
    decreases s.len() - i,
{
    if i < 0 || i >= s.len() {
        Seq::empty()
    } else {
        escaped_char(s[i]) + escaped_from(s, i + 1)
    }
}

/// The body of a JSON string literal for `s`.
pub open spec fn escaped_text(s: Seq<char>) -> Seq<char> {
    escaped_from(s, 0)
}

/// The serialization of `v`: minimal JSON text, no inter-token whitespace.
pub open spec fn json_text(v: JsonRep) -> Seq<char>
    decreases v, 0int, 0int,
{
    match v {
        JsonRep::Null => "null"@,
        JsonRep::Bool(b) => if b {
            "true"@
        } else {
            "false"@
        },
        JsonRep::Int(i) => int_text(i),
        JsonRep::Real(s) => s,
        JsonRep::Str(s) => seq!['"'] + escaped_text(s) + seq!['"'],
        JsonRep::Arr(items) => seq!['['] + items_text_from(items, 0) + seq![']'],
        JsonRep::Obj(entries) => seq!['{'] + entries_text_from(entries, 0) + seq!['}'],
    }
}

/// The comma-separated serializations of `items[i..]`.
pub open spec fn items_text_from(items: Seq<JsonRep>, i: int) -> Seq<char>
    decreases items, 1int, items.len() - i,
{
    if i < 0 || i >= items.len() {
        Seq::empty()
    } else {
        json_text(items[i]) + (if i + 1 < items.len() {
            seq![',']
        } else {
            Seq::empty()
        }) + items_text_from(items, i + 1)
    }
}

/// The comma-separated `"key":value` serializations of `entries[i..]`.
pub open spec fn entries_text_from(entries: Seq<(Seq<char>, JsonRep)>, i: int) -> Seq<char>
    decreases entries, 1int, entries.len() - i,
{
    if i < 0 || i >= entries.len() {
        Seq::empty()
    } else {
        seq!['"'] + escaped_text(entries[i].0) + seq!['"', ':'] + json_text(entries[i].1) + (if i
            + 1 < entries.len() {
            seq![',']
        } else {
            Seq::empty()
        }) + entries_text_from(entries, i + 1)
    }
}

/// Appends the decimal digit character for `d`.
fn push_digit(d: u8, out: &mut Vec<char>)
    requires
        d < 10,
    ensures
        final(out)@ == old(out)@ + seq![digit_char(d as int)],
{
    let c = match d {
        0 => '0',
        1 => '1',
        2 => '2',
        3 => '3',
        4 => '4',
        5 => '5',
        6 => '6',
        7 => '7',
        8 => '8',
        _ => '9',
    };
    out.push(c);
}

/// Appends the hexadecimal digit character for `d`, lower case.
fn push_hex_digit(d: u8, out: &mut Vec<char>)
    requires
        d < 16,
    ensures
        final(out)@ == old(out)@ + seq![hex_digit_char(d as int)],
{
    let c = match d {
        0 => '0',
        1 => '1',
        2 => '2',
        3 => '3',
        4 => '4',
        5 => '5',
        6 => '6',
        7 => '7',
        8 => '8',
        9 => '9',
        10 => 'a',
        11 => 'b',
        12 => 'c',
        13 => 'd',
        14 => 'e',
        _ => 'f',
    };
    out.push(c);
}

/// Appends the decimal digits of `n`, most significant first.
fn push_dec_digits(n: u128, out: &mut Vec<char>)
    ensures
        final(out)@ == old(out)@ + dec_digits_text(n as nat),
    decreases n,
{
    if n >= 10 {
        push_dec_digits(n / 10, out);
    }
    push_digit((n % 10) as u8, out);
}

/// Appends the decimal text of `i`.
fn push_int(i: i128, out: &mut Vec<char>)
    ensures
        final(out)@ == old(out)@ + int_text(i as int),
{
    if i < 0 {
        out.push('-');
        // Two's-complement magnitude, avoiding overflow at the minimum value.
        let mag: u128 = ((-(i + 1)) as u128) + 1;
        assert(mag == -(i as int));
        push_dec_digits(mag, out);
    } else {
        push_dec_digits(i as u128, out);
    }
}

/// Appends the string-literal body characters for `s`, from position `i` on.
fn push_escaped_from(s: &str, i: usize, out: &mut Vec<char>)
    requires
        i <= s@.len(),
    ensures
        final(out)@ == old(out)@ + escaped_from(s@, i as int),
    decreases s@.len() - i,
{
    if i < s.unicode_len() {
        let c = s.get_char(i);
        if c == '"' {
            out.push('\\');
            out.push('"');
        } else if c == '\\' {
            out.push('\\');
            out.push('\\');
        } else if (c as u32) < 32 {
            out.push('\\');
            out.push('u');
            out.push('0');
            out.push('0');
            push_hex_digit(((c as u32) / 16) as u8, out);
            push_hex_digit(((c as u32) % 16) as u8, out);
        } else {
            out.push(c);
        }
        push_escaped_from(s, i + 1, out);
    }
}

/// Appends a complete JSON string literal for `s`.
fn push_string_literal(s: &String, out: &mut Vec<char>)
    ensures
        final(out)@ == old(out)@ + seq!['"'] + escaped_text(s@) + seq!['"'],
{
    out.push('"');
    push_escaped_from(s.as_str(), 0, out);
    out.push('"');
}

/// Appends the characters of `s` from position `i` on, unescaped.
fn push_raw(s: &str, i: usize, out: &mut Vec<char>)
    requires
        i <= s@.len(),
    ensures
        final(out)@ == old(out)@ + s@.skip(i as int),
    decreases s@.len() - i,
{
    if i < s.unicode_len() {
        let c = s.get_char(i);
        out.push(c);
        push_raw(s, i + 1, out);
        proof {
            assert(old(out)@ + seq![s@[i as int]] + s@.skip(i as int + 1) =~= old(out)@ + s@.skip(
                i as int,
            ));
        }
    } else {
        proof {
            assert(old(out)@ + s@.skip(i as int) =~= old(out)@);
        }
    }
}

/// Appends the serialization of `v`.
pub fn write_json(v: &JsonValue, out: &mut Vec<char>)
    ensures
        final(out)@ == old(out)@ + json_text(rep_of(*v)),
    decreases *v, 0int, 0int,
{
    match v {
        JsonValue::Null => {
            out.push('n');
            out.push('u');
            out.push('l');
            out.push('l');
            proof {
                reveal_strlit("null");
                assert(final(out)@ =~= old(out)@ + json_text(rep_of(*v)));
            }
        },
        JsonValue::Bool(b) => {
            if *b {
                out.push('t');
                out.push('r');
                out.push('u');
                out.push('e');
                proof {
                    reveal_strlit("true");
                    assert(final(out)@ =~= old(out)@ + json_text(rep_of(*v)));
                }
            } else {
                out.push('f');
                out.push('a');
                out.push('l');
                out.push('s');
                out.push('e');
                proof {
                    reveal_strlit("false");
                    assert(final(out)@ =~= old(out)@ + json_text(rep_of(*v)));
                }
            }
        },
        JsonValue::Int(i) => {
            push_int(*i, out);
        },
        JsonValue::Real(s) => {
            push_raw(s.as_str(), 0, out);
            proof {
                assert(s@.skip(0) =~= s@);
            }
        },
        JsonValue::Str(s) => {
            push_string_literal(s, out);
            proof {
                assert(final(out)@ =~= old(out)@ + json_text(rep_of(*v)));
            }
        },
        JsonValue::Arr(items) => {
            out.push('[');
            write_items_from(items, 0, out);
            out.push(']');
            proof {
                let ghost a = (rep_of(*v))->Arr_0;
                assert forall|j: int| 0 <= j < a.len() implies a[j] == reps_of(items@)[j] by {}
                assert(a =~= reps_of(items@));
                assert(final(out)@ =~= old(out)@ + json_text(rep_of(*v)));
            }
        },
        JsonValue::Obj(entries) => {
            out.push('{');
            write_entries_from(entries, 0, out);
            out.push('}');
            proof {
                let ghost a = (rep_of(*v))->Obj_0;
                assert forall|j: int| 0 <= j < a.len() implies a[j] == entry_reps_of(entries@)[j] by {}
                assert(a =~= entry_reps_of(entries@));
                assert(final(out)@ =~= old(out)@ + json_text(rep_of(*v)));
            }
        },
    }
}

/// Appends the comma-separated serializations of `items[i..]`.
fn write_items_from(items: &Vec<JsonValue>, i: usize, out: &mut Vec<char>)
    requires
        i <= items.len(),
    ensures
        final(out)@ == old(out)@ + items_text_from(reps_of(items@), i as int),
    decreases *items, 1int, items.len() - i,
{
    if i < items.len() {
        proof {
            assert(decreases_to!(*items => items[i as int]));
        }
        write_json(&items[i], out);
        if i + 1 < items.len() {
            out.push(',');
        }
        write_items_from(items, i + 1, out);
        proof {
            assert(final(out)@ =~= old(out)@ + items_text_from(reps_of(items@), i as int));
        }
    }
}

/// Appends the comma-separated `"key":value` serializations of `entries[i..]`.
fn write_entries_from(entries: &Vec<(String, JsonValue)>, i: usize, out: &mut Vec<char>)
    requires
        i <= entries.len(),
    ensures
        final(out)@ == old(out)@ + entries_text_from(entry_reps_of(entries@), i as int),
    decreases *entries, 1int, entries.len() - i,
{
    if i < entries.len() {
        push_string_literal(&entries[i].0, out);
        out.push(':');
        proof {
            assert(decreases_to!(*entries => entries[i as int]));
        }
        write_json(&entries[i].1, out);
        if i + 1 < entries.len() {
            out.push(',');
        }
        write_entries_from(entries, i + 1, out);
        proof {
            assert(final(out)@ =~= old(out)@ + entries_text_from(entry_reps_of(entries@), i as int));
        }
    }
}

/// Relies on `String: FromIterator<char>`: collecting characters yields the
/// string holding exactly that character sequence.
#[verifier::external_body]
fn chars_to_string(chars: &Vec<char>) -> (r: String)
    ensures
        r@ == chars@,
{
    chars.iter().collect()
}

/// An array value's model is the array of its elements' models.
pub proof fn lemma_rep_of_arr(items: Vec<JsonValue>)
    ensures
        rep_of(JsonValue::Arr(items)) == JsonRep::Arr(reps_of(items@)),
{
    let a = rep_of(JsonValue::Arr(items))->Arr_0;
    assert forall|j: int| 0 <= j < a.len() implies a[j] == reps_of(items@)[j] by {}
    assert(a =~= reps_of(items@));
}

/// An object value's model is the object of its entries' models.
pub proof fn lemma_rep_of_obj(entries: Vec<(String, JsonValue)>)
    ensures
        rep_of(JsonValue::Obj(entries)) == JsonRep::Obj(entry_reps_of(entries@)),
{
    let a = rep_of(JsonValue::Obj(entries))->Obj_0;
    assert forall|j: int| 0 <= j < a.len() implies a[j] == entry_reps_of(entries@)[j] by {}
    assert(a =~= entry_reps_of(entries@));
}

/// Serializes `v` to JSON text.
pub fn to_text(v: &JsonValue) -> (r: String)
    ensures
        r@ == json_text(rep_of(*v)),
{
    let mut out: Vec<char> = Vec::new();
    write_json(v, &mut out);
    proof {
        assert(out@ =~= json_text(rep_of(*v)));
    }
    chars_to_string(&out)
}

} // verus!
