//! Reading the colour file that pywal keeps.
//!
//! The file is a JSON document. Under `colors` it holds up to sixteen entries,
//! `color0` to `color15`, each a hexadecimal colour such as `#1a2b3c`. Entries
//! that are missing, are not texts or do not parse are passed over; the
//! others give the colours, in the order of their numbers.

use crate::colors::{color_from_u32, rgb, Color};
use vstd::prelude::*;

verus! {

/// What a JSON value stands for, as far as the colour file is read: a text,
/// an object with its members, or anything else.
pub enum JsonView {
    Text(Seq<char>),
    Object(Map<Seq<char>, JsonView>),
    Other,
}

/// The JSON value type of the `serde_json` crate.
#[verifier::external_type_specification]
#[verifier::external_body]
pub struct ExJsonValue(serde_json::Value);

/// The error type of the `serde_json` crate.
#[verifier::external_type_specification]
#[verifier::external_body]
pub struct ExJsonError(serde_json::Error);

/// What a JSON value of the `serde_json` crate holds.
pub uninterp spec fn json_tree(value: serde_json::Value) -> JsonView;

/// The value that `serde_json::from_str` reads from a text, or `None` where
/// the text is not one JSON document.
pub uninterp spec fn json_document(text: Seq<char>) -> Option<JsonView>;

/// Calls `serde_json::from_str` for a `serde_json::Value`.
///
/// The contract claims that the outcome depends on the text alone.
#[verifier::external_body]
fn parse_json(text: &str) -> (parsed: Result<serde_json::Value, serde_json::Error>)
    ensures
        match json_document(text@) {
            Some(tree) => parsed matches Ok(value) && json_tree(value) == tree,
            None => parsed is Err,
        },
{
    serde_json::from_str::<serde_json::Value>(text)
}

/// Calls `serde_json::Value::get` with a text as the index.
///
/// The contract claims what the crate documents: the member of that name
/// where the value is an object that has one, and `None` otherwise.
#[verifier::external_body]
fn member<'a>(value: &'a serde_json::Value, key: &str) -> (found: Option<&'a serde_json::Value>)
    ensures
        match json_tree(*value) {
            JsonView::Object(members) => if members.contains_key(key@) {
                found matches Some(inner) && json_tree(*inner) == members[key@]
            } else {
                found is None
            },
            _ => found is None,
        },
{
    value.get(key)
}

/// Calls `serde_json::Value::as_str`.
///
/// The contract claims what the crate documents: the text where the value is
/// a text, and `None` otherwise.
#[verifier::external_body]
fn text_of<'a>(value: &'a serde_json::Value) -> (found: Option<&'a str>)
    ensures
        match json_tree(*value) {
            JsonView::Text(text) => found matches Some(inner) && inner@ == text,
            _ => found is None,
        },
{
    value.as_str()
}

/// The number of entries that are looked for.
pub const ENTRIES: usize = 16;

/// The name of the entry with the given number.
pub open spec fn entry_key(index: int) -> Seq<char> {
    if index == 0 {
        "color0"@
    } else if index == 1 {
        "color1"@
    } else if index == 2 {
        "color2"@
    } else if index == 3 {
        "color3"@
    } else if index == 4 {
        "color4"@
    } else if index == 5 {
        "color5"@
    } else if index == 6 {
        "color6"@
    } else if index == 7 {
        "color7"@
    } else if index == 8 {
        "color8"@
    } else if index == 9 {
        "color9"@
    } else if index == 10 {
        "color10"@
    } else if index == 11 {
        "color11"@
    } else if index == 12 {
        "color12"@
    } else if index == 13 {
        "color13"@
    } else if index == 14 {
        "color14"@
    } else {
        "color15"@
    }
}

/// The name of the entry with the given number.
pub fn color_key(index: usize) -> (key: &'static str)
    requires
        index < ENTRIES,
    ensures
        key@ == entry_key(index as int),
{
    if index == 0 {
        "color0"
    } else if index == 1 {
        "color1"
    } else if index == 2 {
        "color2"
    } else if index == 3 {
        "color3"
    } else if index == 4 {
        "color4"
    } else if index == 5 {
        "color5"
    } else if index == 6 {
        "color6"
    } else if index == 7 {
        "color7"
    } else if index == 8 {
        "color8"
    } else if index == 9 {
        "color9"
    } else if index == 10 {
        "color10"
    } else if index == 11 {
        "color11"
    } else if index == 12 {
        "color12"
    } else if index == 13 {
        "color13"
    } else if index == 14 {
        "color14"
    } else {
        "color15"
    }
}

/// A text without the `#` signs that it starts with.
pub open spec fn without_hashes(text: Seq<char>) -> Seq<char>
    decreases text.len(),
{
    if text.len() > 0 && text[0] == '#' {
        without_hashes(text.drop_first())
    } else {
        text
    }
}

/// The value of a hexadecimal digit, in either case, or `None` for any other character.
pub open spec fn hex_digit(c: char) -> Option<nat> {
    let n = c as u32;
    if 48 <= n <= 57 {
        Some((n - 48) as nat)
    } else if 97 <= n <= 102 {
        Some((n - 87) as nat)
    } else if 65 <= n <= 70 {
        Some((n - 55) as nat)
    } else {
        None
    }
}

/// The number that a sequence of hexadecimal digits writes, or `None` where
/// one of the characters is no such digit. No digits write zero.
pub open spec fn hex_number(digits: Seq<char>) -> Option<nat>
    decreases digits.len(),
{
    if digits.len() == 0 {
        Some(0)
    } else {
        match (hex_number(digits.drop_last()), hex_digit(digits.last())) {
            (Some(high), Some(low)) => Some(high * 16 + low),
            _ => None,
        }
    }
}

/// The 32-bit number that a text writes in hexadecimal: an optional `+`, then
/// at least one digit, and a value that fits in 32 bits. `None` otherwise.
pub open spec fn hex_u32(text: Seq<char>) -> Option<u32> {
    let digits = if text.len() > 0 && text[0] == '+' {
        text.drop_first()
    } else {
        text
    };
    if digits.len() == 0 {
        None
    } else {
        match hex_number(digits) {
            Some(value) => if value <= u32::MAX {
                Some(value as u32)
            } else {
                None
            },
            None => None,
        }
    }
}

/// The colour that a text of the colour file writes, if it writes one.
pub open spec fn hex_color(text: Seq<char>) -> Option<Color> {
    match hex_u32(without_hashes(text)) {
        Some(value) => Some(rgb(value)),
        None => None,
    }
}

/// The colours that a sequence of entries gives: one for each entry that is
/// there and writes a colour, in the order of the entries.
pub open spec fn colors_of(entries: Seq<Option<Seq<char>>>) -> Seq<Color> {
    entries.filter_map(
        |entry: Option<Seq<char>>|
            match entry {
                Some(text) => hex_color(text),
                None => None,
            },
    )
}

/// The text of the entry with the given number among the members of `colors`.
pub open spec fn entry_of(members: Map<Seq<char>, JsonView>, index: int) -> Option<Seq<char>> {
    if members.contains_key(entry_key(index)) {
        match members[entry_key(index)] {
            JsonView::Text(text) => Some(text),
            _ => None,
        }
    } else {
        None
    }
}

/// The sixteen entries of a `colors` value. A value that is no object has none.
pub open spec fn entries_of(colors: JsonView) -> Seq<Option<Seq<char>>> {
    match colors {
        JsonView::Object(members) => Seq::new(ENTRIES as nat, |i: int| entry_of(members, i)),
        _ => Seq::new(ENTRIES as nat, |i: int| None),
    }
}

/// The colours of a pywal colour file with the given content: `None` where
/// the content is no JSON document or has no `colors` member.
pub open spec fn pywal_outcome(content: Seq<char>) -> Option<Seq<Color>> {
    match json_document(content) {
        Some(JsonView::Object(members)) => if members.contains_key("colors"@) {
            Some(colors_of(entries_of(members["colors"@])))
        } else {
            None
        },
        _ => None,
    }
}

/// A digit more makes a number no smaller.
proof fn lemma_hex_number_grows(digits: Seq<char>, k: int)
    requires
        0 <= k <= digits.len(),
        hex_number(digits) is Some,
    ensures
        hex_number(digits.take(k)) is Some,
        hex_number(digits.take(k))->Some_0 <= hex_number(digits)->Some_0,
    decreases digits.len() - k,
{
    if k == digits.len() {
        assert(digits.take(k) =~= digits);
    } else {
        assert(digits.drop_last().take(k) =~= digits.take(k));
        lemma_hex_number_grows(digits.drop_last(), k);
    }
}

/// A character that is no digit spoils every number that it is part of.
proof fn lemma_hex_number_spoiled(digits: Seq<char>, k: int)
    requires
        0 <= k <= digits.len(),
        hex_number(digits.take(k)) is None,
    ensures
        hex_number(digits) is None,
    decreases digits.len() - k,
{
    if k == digits.len() {
        assert(digits.take(k) =~= digits);
    } else {
        assert(digits.drop_last().take(k) =~= digits.take(k));
        lemma_hex_number_spoiled(digits.drop_last(), k);
    }
}

/// The text without the `#` signs that it starts with.
pub fn trim_hashes(text: &str) -> (rest: &str)
    ensures
        rest@ == without_hashes(text@),
{
    let n = text.unicode_len();
    let mut k: usize = 0;
    assert(text@.skip(0) =~= text@);
    while k < n && text.get_char(k) == '#'
        invariant
            k <= n,
            n == text@.len(),
            without_hashes(text@) == without_hashes(text@.skip(k as int)),
        decreases n - k,
    {
        assert(text@.skip(k as int).drop_first() =~= text@.skip(k as int + 1));
        k = k + 1;
    }
    text.substring_char(k, n)
}

/// The value of a hexadecimal digit, or `None` for any other character.
pub fn digit_value(c: char) -> (value: Option<u32>)
    ensures
        match hex_digit(c) {
            Some(v) => value == Some(v as u32) && v < 16,
            None => value is None,
        },
{
    let n = c as u32;
    if 48 <= n && n <= 57 {
        Some(n - 48)
    } else if 97 <= n && n <= 102 {
        Some(n - 87)
    } else if 65 <= n && n <= 70 {
        Some(n - 55)
    } else {
        None
    }
}

/// Reads a 32-bit number that is written in hexadecimal.
pub fn parse_hex(text: &str) -> (value: Option<u32>)
    ensures
        value == hex_u32(text@),
{
    let n = text.unicode_len();
    if n == 0 {
        return None;
    }
    let start: usize = if text.get_char(0) == '+' {
        1
    } else {
        0
    };
    if start == n {
        return None;
    }
    let ghost digits = text@.skip(start as int);
    assert(text@.skip(0) =~= text@);
    let ghost whole = match hex_number(digits) {
        Some(value) => if value <= u32::MAX {
            Some(value as u32)
        } else {
            None
        },
        None => None,
    };
    let mut acc: u64 = 0;
    let mut i: usize = start;
    while i < n
        invariant
            start <= i <= n,
            n == text@.len(),
            digits == text@.skip(start as int),
            hex_number(digits.take(i - start)) == Some(acc as nat),
            acc <= u32::MAX,
            hex_u32(text@) == whole,
            whole == match hex_number(digits) {
                Some(value) => if value <= u32::MAX {
                    Some(value as u32)
                } else {
                    None
                },
                None => None,
            },
        decreases n - i,
    {
        let ghost k = i - start;
        let ghost next = digits.take(k + 1);
        assert(next.drop_last() =~= digits.take(k));
        match digit_value(text.get_char(i)) {
            Some(d) => {
                acc = acc * 16 + d as u64;
                if acc > 0xffff_ffff {
                    proof {
                        if hex_number(digits) is Some {
                            lemma_hex_number_grows(digits, k + 1);
                        }
                    }
                    return None;
                }
            },
            None => {
                proof {
                    lemma_hex_number_spoiled(digits, k + 1);
                }
                return None;
            },
        }
        i = i + 1;
    }
    assert(digits.take(n - start) =~= digits);
    Some(acc as u32)
}

/// Reads one colour of the colour file.
pub fn parse_hex_color(text: &str) -> (color: Option<Color>)
    ensures
        color == hex_color(text@),
{
    match parse_hex(trim_hashes(text)) {
        Some(value) => Some(color_from_u32(value)),
        None => None,
    }
}

/// Reads the colours of a pywal colour file from its content.
///
/// Gives `None` where the content is no JSON document or has no `colors`
/// member. Otherwise gives the colours of the entries `color0` to `color15`
/// that are there and write a colour, in this order; there may be fewer than
/// sixteen.
pub fn pywal_colors(content: &str) -> (colors: Option<Vec<Color>>)
    ensures
        match pywal_outcome(content@) {
            Some(found) => colors matches Some(list) && list@ == found,
            None => colors is None,
        },
{
    let json = match parse_json(content) {
        Ok(json) => json,
        Err(_) => {
            return None;
        },
    };
    let colors = match member(&json, "colors") {
        Some(colors) => colors,
        None => {
            return None;
        },
    };
    let ghost entries = entries_of(json_tree(*colors));
    let ghost pick = |entry: Option<Seq<char>>|
        match entry {
            Some(text) => hex_color(text),
            None => None,
        };
    let mut result: Vec<Color> = Vec::new();
    let mut i: usize = 0;
    while i < ENTRIES
        invariant
            i <= ENTRIES,
            entries == entries_of(json_tree(*colors)),
            entries.len() == ENTRIES,
            pick == |entry: Option<Seq<char>>|
                match entry {
                    Some(text) => hex_color(text),
                    None => None,
                },
            result@ == entries.take(i as int).filter_map(pick),
        decreases ENTRIES - i,
    {
        proof {
            entries.lemma_filter_map_take_succ(pick, i as int);
        }
        let entry = match member(colors, color_key(i)) {
            Some(value) => text_of(value),
            None => None,
        };
        match entry {
            Some(hex) => {
                match parse_hex_color(hex) {
                    Some(color) => {
                        result.push(color);
                    },
                    None => {},
                }
            },
            None => {},
        }
        i = i + 1;
    }
    assert(entries.take(ENTRIES as int) =~= entries);
    Some(result)
}

} // verus!
