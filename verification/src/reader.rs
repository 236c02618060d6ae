//! The INI reader.
//!
//! Splitting a text into sections, keys and values is the work of the `ini`
//! crate. This module holds all that the library takes on trust from it: the
//! document type, a name for what a document holds, a name for what reading
//! makes of a text, and the three calls that the parser makes. It also holds
//! the test for the one kind of text that must be kept from the reader.

use crate::error::{IniError, IniErrorView};
use ini::Ini;
use std::collections::HashMap;
use vstd::prelude::*;

verus! {

/// `ini::Ini`, the document that the reader builds. Nothing inside it is seen
/// from here.
#[verifier::external_type_specification]
#[verifier::external_body]
pub struct ExIni(ini::Ini);

/// The named sections of a document: under each section's name, the values
/// of that section by key.
pub uninterp spec fn ini_sections(doc: Ini) -> Map<Seq<char>, Map<Seq<char>, Seq<char>>>;

/// The values of one section by the text of their keys.
///
/// A section is a `HashMap` with `String` keys. Its own view is a map by key,
/// and no model says when two `String` keys are one; this name is the map by
/// what the keys hold.
pub uninterp spec fn section_entries(section: HashMap<String, String>) -> Map<
    Seq<char>,
    Seq<char>,
>;

/// What `Ini::read_from` makes of a text: the named sections of the document
/// that it builds, or the fault at which it stops.
pub uninterp spec fn ini_read(input: Seq<u8>) -> Result<
    Map<Seq<char>, Map<Seq<char>, Seq<char>>>,
    IniErrorView,
>;

/// What the outcome of reading a text holds.
pub open spec fn read_view(r: Result<Ini, IniError>) -> Result<
    Map<Seq<char>, Map<Seq<char>, Seq<char>>>,
    IniErrorView,
> {
    match r {
        Ok(doc) => Ok(ini_sections(doc)),
        Err(e) => Err(e@),
    }
}

/// Whether `b` is the ASCII code of a hexadecimal digit.
pub open spec fn is_hex_digit(b: u8) -> bool {
    ||| 0x30 <= b <= 0x39
    ||| 0x41 <= b <= 0x46
    ||| 0x61 <= b <= 0x66
}

/// Whether at place `i` of `input` stand a backslash, an `x` and four
/// hexadecimal digits that number a surrogate code point (`D800` to `DFFF`):
/// a `D` or `d`, a digit from `8` up, and two digits more.
pub open spec fn surrogate_escape_at(input: Seq<u8>, i: int) -> bool {
    &&& 0 <= i
    &&& i + 5 < input.len()
    &&& input[i] == 0x5C
    &&& input[i + 1] == 0x78
    &&& (input[i + 2] == 0x44 || input[i + 2] == 0x64)
    &&& is_hex_digit(input[i + 3])
    &&& input[i + 3] >= 0x38
    &&& is_hex_digit(input[i + 4])
    &&& is_hex_digit(input[i + 5])
}

/// Whether `input` holds the escape of a surrogate code point anywhere.
///
/// The INI reader turns `\x` and four hexadecimal digits into the character
/// of that number. No character has the number of a surrogate, and the reader
/// panics where it is asked for one.
pub open spec fn holds_surrogate_escape(input: Seq<u8>) -> bool {
    exists|i: int| surrogate_escape_at(input, i)
}

fn hex_digit(b: u8) -> (r: bool)
    ensures
        r == is_hex_digit(b),
{
    (0x30 <= b && b <= 0x39) || (0x41 <= b && b <= 0x46) || (0x61 <= b && b <= 0x66)
}

/// Tells whether `input` holds the escape of a surrogate code point, which
/// [`crate::parse`] must not be given.
pub fn has_surrogate_escape(input: &[u8]) -> (r: bool)
    ensures
        r == holds_surrogate_escape(input@),
{
    let n = input.len();
    if n < 6 {
        return false;
    }
    let mut i: usize = 0;
    while i + 5 < n
        invariant
            n == input@.len(),
            n >= 6,
            i + 5 <= n,
            forall|j: int| 0 <= j < i ==> !surrogate_escape_at(input@, j),
        decreases n - i,
    {
        let escape = input[i] == 0x5C && input[i + 1] == 0x78;
        let high = input[i + 2] == 0x44 || input[i + 2] == 0x64;
        let next = hex_digit(input[i + 3]) && input[i + 3] >= 0x38;
        if escape && high && next && hex_digit(input[i + 4]) && hex_digit(input[i + 5]) {
            assert(surrogate_escape_at(input@, i as int));
            return true;
        }
        i = i + 1;
    }
    false
}

/// Calls `Ini::read_from` on a text held in memory.
///
/// Trusted: the outcome rests on the text alone and is named [`ini_read`]. A
/// document comes back with the sections that the name gives; a fault comes
/// back with the line, column and message that the name gives, moved into an
/// [`IniError`]. A text with the escape of a surrogate code point is kept
/// out: the reader looks up the character of each `\x` escape that it meets
/// and panics where there is none.
#[verifier::external_body]
pub(crate) fn read_ini(input: &[u8]) -> (r: Result<Ini, IniError>)
    requires
        !holds_surrogate_escape(input@),
    ensures
        read_view(r) == ini_read(input@),
{
    let mut rest = input;
    match Ini::read_from(&mut rest) {
        Ok(doc) => Ok(doc),
        Err(e) => Err(IniError { line: e.line, col: e.col, msg: e.msg }),
    }
}

/// Calls `Ini::section` for the section of a given name.
///
/// Trusted: a section comes back exactly where the document has one of that
/// name, and it holds the values that [`ini_sections`] gives under the name.
#[verifier::external_body]
pub(crate) fn find_section<'a>(doc: &'a Ini, name: &str) -> (r: Option<
    &'a HashMap<String, String>,
>)
    ensures
        match r {
            Some(section) => ini_sections(*doc).contains_key(name@) && section_entries(*section)
                == ini_sections(*doc)[name@],
            None => !ini_sections(*doc).contains_key(name@),
        },
{
    doc.section(Some(name))
}

/// Calls `HashMap::get` on a section, with the text of a key.
///
/// Trusted: a value comes back exactly where the section has one under a key
/// of that text, and it is the value that [`section_entries`] gives there.
#[verifier::external_body]
pub(crate) fn find_value<'a>(section: &'a HashMap<String, String>, key: &str) -> (r: Option<
    &'a String,
>)
    ensures
        match r {
            Some(value) => section_entries(*section).contains_key(key@) && section_entries(
                *section,
            )[key@] == value@,
            None => !section_entries(*section).contains_key(key@),
        },
{
    section.get(key)
}

} // verus!
