//! Parser and writer for the PLS playlist format.
//!
//! A playlist is an INI text with one section, `[playlist]`, that numbers its
//! elements from 1: `File1`, `Title1`, `Length1`, and so on. [`parse`] reads
//! the elements out of such a text, and [`write`] gives the canonical text of
//! a list of elements.

pub mod decimal;
pub mod element;
pub mod error;
pub mod keys;
pub mod laws;
pub mod parser;
pub mod reader;
pub mod text;
pub mod writer;

pub use decimal::IntegerError;
pub use element::{ElementLength, PlaylistElement};
pub use error::{ErrorSource, IniError, ParseError};
pub use parser::{parse_document, parse_element, parse_section};
pub use reader::has_surrogate_escape;

use decimal::u64_to_decimal;
use element::{elements_view, ElementView};
use parser::{parsed_view, playlist_of_read};
use reader::{holds_surrogate_escape, ini_read, read_ini};
use vstd::prelude::*;
use vstd::string::StringExecFns;
use writer::{append_element, append_line, elements_text, playlist_text};

verus! {

/// Parse a playlist.
///
/// The parser is very lenient and allows pretty much everything as long as
/// the required stuff's in.
///
/// The text must hold no escape of a surrogate code point, on which the INI
/// reader panics: [`has_surrogate_escape`] tells, and [`checked_parse`] asks
/// it first.
pub fn parse(what: &[u8]) -> (r: Result<Vec<PlaylistElement>, ParseError>)
    requires
        !holds_surrogate_escape(what@),
    ensures
        parsed_view(r) == playlist_of_read(ini_read(what@)),
{
    match read_ini(what) {
        Ok(doc) => parse_document(&doc),
        Err(e) => Err(ParseError::Ini(e)),
    }
}

/// Parse a playlist, unless the INI reader cannot take its text.
///
/// Gives `None` exactly where the text holds the escape of a surrogate code
/// point, and what [`parse`] gives everywhere else.
pub fn checked_parse(what: &[u8]) -> (r: Option<Result<Vec<PlaylistElement>, ParseError>>)
    ensures
        r is None <==> holds_surrogate_escape(what@),
        r matches Some(parsed) ==> parsed_view(parsed) == playlist_of_read(ini_read(what@)),
{
    if has_surrogate_escape(what) {
        None
    } else {
        Some(parse(what))
    }
}

/// Write a playlist: the text that holds `what`, to be handed to any output.
pub fn write(what: &[PlaylistElement]) -> (out: String)
    ensures
        out@ == playlist_text(elements_view(what@)),
{
    let ghost elements = elements_view(what@);
    let mut out = String::from_str("[playlist]\n");
    let mut done: usize = 0;
    proof {
        assert(elements.take(0) =~= Seq::<ElementView>::empty());
    }
    while done < what.len()
        invariant
            done <= what.len(),
            elements == elements_view(what@),
            out@ == "[playlist]\n"@ + elements_text(elements.take(done as int)),
        decreases what.len() - done,
    {
        let index = done + 1;
        append_element(&mut out, index as u64, &what[done]);
        proof {
            let before = elements.take(done as int);
            let now = elements.take(index as int);
            assert(now.drop_last() =~= before);
            assert(now.last() == what@[done as int]@);
            assert(out@ =~= "[playlist]\n"@ + elements_text(now));
        }
        done = index;
    }
    proof {
        assert(elements.take(done as int) =~= elements);
    }
    append_line(&mut out, "NumberOfEntries", u64_to_decimal(what.len() as u64).as_str());
    append_line(&mut out, "Version", "2");
    proof {
        assert(out@ =~= playlist_text(elements));
    }
    out
}

} // verus!
