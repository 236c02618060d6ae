//! From the text of a playlist to its elements.

use crate::decimal::{parse_decimal, parse_u64};
use crate::element::{
    elements_view, length_of, ElementLength, ElementView, PlaylistElement,
};
use crate::error::{IniErrorView, ParseError, ParseErrorView};
use crate::keys::{file_key, length_key, numbered_key, title_key};
use crate::reader::{find_section, find_value, ini_sections, section_entries};
use ini::Ini;
use std::collections::HashMap;
use vstd::prelude::*;

verus! {

/// The value under `key`, where there is one.
pub open spec fn value_of(entries: Map<Seq<char>, Seq<char>>, key: Seq<char>) -> Option<
    Seq<char>,
> {
    if entries.contains_key(key) {
        Some(entries[key])
    } else {
        None
    }
}

/// The text of the entry count: the value under the first of the three
/// spellings of its key that the section has.
pub open spec fn count_text(entries: Map<Seq<char>, Seq<char>>) -> Option<Seq<char>> {
    if entries.contains_key("NumberOfEntries"@) {
        Some(entries["NumberOfEntries"@])
    } else if entries.contains_key("numberofentries"@) {
        Some(entries["numberofentries"@])
    } else {
        value_of(entries, "NumberOfEvents"@)
    }
}

/// What is wrong with the version of a section, if anything: a version that
/// is given must be the number 2.
pub open spec fn version_fault(entries: Map<Seq<char>, Seq<char>>) -> Option<ParseErrorView> {
    match value_of(entries, "Version"@) {
        None => None,
        Some(text) => match parse_decimal(text) {
            Err(e) => Some(ParseErrorView::InvalidInteger(e)),
            Ok(version) => if version == 2 {
                None
            } else {
                Some(ParseErrorView::InvalidVersion(version))
            },
        },
    }
}

/// Element `index` of a section: its path is required, its title optional,
/// its length read by [`length_of`].
pub open spec fn element_of(entries: Map<Seq<char>, Seq<char>>, index: nat) -> Result<
    ElementView,
    ParseErrorView,
> {
    if !entries.contains_key(file_key(index)) {
        Err(ParseErrorView::MissingKey(file_key(index)))
    } else {
        match length_of(value_of(entries, length_key(index))) {
            Err(e) => Err(e),
            Ok(len) => Ok(
                ElementView {
                    path: entries[file_key(index)],
                    title: value_of(entries, title_key(index)),
                    len,
                },
            ),
        }
    }
}

/// Elements 1 to `count` of a section in order, or the error of the first
/// among them that has one.
pub open spec fn elements_of(entries: Map<Seq<char>, Seq<char>>, count: nat) -> Result<
    Seq<ElementView>,
    ParseErrorView,
>
    decreases count,
{
    if count == 0 {
        Ok(Seq::empty())
    } else {
        match elements_of(entries, (count - 1) as nat) {
            Err(e) => Err(e),
            Ok(before) => match element_of(entries, count) {
                Err(e) => Err(e),
                Ok(element) => Ok(before.push(element)),
            },
        }
    }
}

/// The playlist that a `[playlist]` section holds.
///
/// The version is checked first, then the entry count is read, then the
/// elements 1 to that count.
pub open spec fn playlist_of_section(entries: Map<Seq<char>, Seq<char>>) -> Result<
    Seq<ElementView>,
    ParseErrorView,
> {
    match version_fault(entries) {
        Some(e) => Err(e),
        None => match count_text(entries) {
            None => Err(
                ParseErrorView::MissingKey("NumberOfEntries|numberofentries|NumberOfEvents"@),
            ),
            Some(text) => match parse_decimal(text) {
                Err(e) => Err(ParseErrorView::InvalidInteger(e)),
                Ok(count) => elements_of(entries, count as nat),
            },
        },
    }
}

/// The playlist that a document holds: that of its section `playlist`.
pub open spec fn playlist_of_document(
    sections: Map<Seq<char>, Map<Seq<char>, Seq<char>>>,
) -> Result<Seq<ElementView>, ParseErrorView> {
    if sections.contains_key("playlist"@) {
        playlist_of_section(sections["playlist"@])
    } else {
        Err(ParseErrorView::MissingPlaylistSection)
    }
}

/// The playlist that the outcome of reading an INI text holds: a fault of the
/// text is handed on as it is.
pub open spec fn playlist_of_read(
    read: Result<Map<Seq<char>, Map<Seq<char>, Seq<char>>>, IniErrorView>,
) -> Result<Seq<ElementView>, ParseErrorView> {
    match read {
        Ok(sections) => playlist_of_document(sections),
        Err(e) => Err(ParseErrorView::Ini(e)),
    }
}

/// What the outcome of parsing holds.
pub open spec fn parsed_view(r: Result<Vec<PlaylistElement>, ParseError>) -> Result<
    Seq<ElementView>,
    ParseErrorView,
> {
    match r {
        Ok(elements) => Ok(elements_view(elements@)),
        Err(e) => Err(e@),
    }
}

/// What the outcome of reading one element holds.
pub open spec fn element_view(r: Result<PlaylistElement, ParseError>) -> Result<
    ElementView,
    ParseErrorView,
> {
    match r {
        Ok(element) => Ok(element@),
        Err(e) => Err(e@),
    }
}

/// Once an element has an error, every longer run of elements has that error.
pub proof fn lemma_error_stays(entries: Map<Seq<char>, Seq<char>>, failed: nat, count: nat)
    requires
        failed <= count,
        elements_of(entries, failed) is Err,
    ensures
        elements_of(entries, count) == elements_of(entries, failed),
    decreases count,
{
    if failed < count {
        lemma_error_stays(entries, failed, (count - 1) as nat);
    }
}

/// Reads element `index` of a section.
pub fn parse_element(play: &HashMap<String, String>, index: u64) -> (r: Result<
    PlaylistElement,
    ParseError,
>)
    ensures
        element_view(r) == element_of(section_entries(*play), index as nat),
{
    let file = numbered_key("File", index);
    let path = match find_value(play, file.as_str()) {
        Some(path) => path.clone(),
        None => {
            return Err(ParseError::MissingKey(file));
        },
    };
    let title = match find_value(play, numbered_key("Title", index).as_str()) {
        Some(title) => Some(title.clone()),
        None => None,
    };
    let length = match find_value(play, numbered_key("Length", index).as_str()) {
        Some(length) => Some(length.as_str()),
        None => None,
    };
    match ElementLength::parse(length) {
        Ok(len) => Ok(PlaylistElement { path, title, len }),
        Err(e) => Err(e),
    }
}

/// Parses the `[playlist]` section of a document.
pub fn parse_section(play: &HashMap<String, String>) -> (r: Result<
    Vec<PlaylistElement>,
    ParseError,
>)
    ensures
        parsed_view(r) == playlist_of_section(section_entries(*play)),
{
    let ghost entries = section_entries(*play);
    match find_value(play, "Version") {
        Some(text) => match parse_u64(text.as_str()) {
            Ok(version) => {
                if version != 2 {
                    return Err(ParseError::InvalidVersion(version));
                }
            },
            Err(e) => {
                return Err(ParseError::InvalidInteger(e));
            },
        },
        None => {},
    }
    let found = match find_value(play, "NumberOfEntries") {
        Some(text) => Some(text),
        None => match find_value(play, "numberofentries") {
            Some(text) => Some(text),
            None => find_value(play, "NumberOfEvents"),
        },
    };
    let count = match found {
        Some(text) => match parse_u64(text.as_str()) {
            Ok(count) => count,
            Err(e) => {
                return Err(ParseError::InvalidInteger(e));
            },
        },
        None => {
            return Err(
                ParseError::MissingKey(
                    String::from_str("NumberOfEntries|numberofentries|NumberOfEvents"),
                ),
            );
        },
    };
    let mut elements: Vec<PlaylistElement> = Vec::new();
    let mut done: u64 = 0;
    proof {
        assert(elements_view(elements@) =~= Seq::<ElementView>::empty());
    }
    while done < count
        invariant
            done <= count,
            entries == section_entries(*play),
            playlist_of_section(entries) == elements_of(entries, count as nat),
            elements_of(entries, done as nat) == Ok::<Seq<ElementView>, ParseErrorView>(
                elements_view(elements@),
            ),
        decreases count - done,
    {
        let index = done + 1;
        match parse_element(play, index) {
            Ok(element) => {
                proof {
                    assert(elements_view(elements@.push(element)) =~= elements_view(
                        elements@,
                    ).push(element@));
                }
                elements.push(element);
            },
            Err(e) => {
                proof {
                    lemma_error_stays(entries, index as nat, count as nat);
                }
                return Err(e);
            },
        }
        done = index;
    }
    Ok(elements)
}

/// Parses the playlist of a document that was read.
pub fn parse_document(doc: &Ini) -> (r: Result<Vec<PlaylistElement>, ParseError>)
    ensures
        parsed_view(r) == playlist_of_document(ini_sections(*doc)),
{
    match find_section(doc, "playlist") {
        Some(play) => parse_section(play),
        None => Err(ParseError::MissingPlaylistSection),
    }
}

} // verus!
