//! The elements of a playlist.

use crate::decimal::{parse_decimal, parse_u64};
use crate::error::{ParseError, ParseErrorView};
use crate::text::same_text;
use vstd::prelude::*;

verus! {

/// Playlist element's length.
///
/// `Unknown` if omitted or set to `-1`.
#[derive(Debug, Copy, Clone, Hash, PartialEq, Eq, PartialOrd, Ord, Structural)]
pub enum ElementLength {
    /// Length was specified in `Length#` field.
    Seconds(u64),
    /// Length was omitted or set to `-1`.
    Unknown,
}

/// A single element of a playlist.
#[derive(Debug, Clone, Hash, PartialEq, Eq, PartialOrd, Ord)]
pub struct PlaylistElement {
    /// Path specified in the `File#` key, unconstrained.
    pub path: String,
    /// Title specified by the `Title#` key or `None` if omitted.
    pub title: Option<String>,
    /// Length specified by the `Length#` key or `Unknown` if omitted.
    pub len: ElementLength,
}

/// What a [`PlaylistElement`] holds.
pub struct ElementView {
    pub path: Seq<char>,
    pub title: Option<Seq<char>>,
    pub len: ElementLength,
}

impl View for PlaylistElement {
    type V = ElementView;

    open spec fn view(&self) -> ElementView {
        ElementView {
            path: self.path@,
            title: match self.title {
                Some(t) => Some(t@),
                None => None,
            },
            len: self.len,
        }
    }
}

/// What each element of `elements` holds, in the same order.
pub open spec fn elements_view(elements: Seq<PlaylistElement>) -> Seq<ElementView> {
    elements.map_values(|e: PlaylistElement| e@)
}

/// The length that the value of a `Length#` key stands for.
///
/// No value and the value `-1` stand for an unknown length; any other value
/// is a number of seconds, read as a `u64`.
pub open spec fn length_of(value: Option<Seq<char>>) -> Result<ElementLength, ParseErrorView> {
    match value {
        None => Ok(ElementLength::Unknown),
        Some(text) => if text == "-1"@ {
            Ok(ElementLength::Unknown)
        } else {
            match parse_decimal(text) {
                Ok(seconds) => Ok(ElementLength::Seconds(seconds)),
                Err(e) => Err(ParseErrorView::InvalidInteger(e)),
            }
        },
    }
}

/// What a text that may be absent holds.
pub open spec fn text_view(text: Option<&str>) -> Option<Seq<char>> {
    match text {
        Some(t) => Some(t@),
        None => None,
    }
}

/// What the outcome of reading a length holds.
pub open spec fn length_view(r: Result<ElementLength, ParseError>) -> Result<
    ElementLength,
    ParseErrorView,
> {
    match r {
        Ok(len) => Ok(len),
        Err(e) => Err(e@),
    }
}

impl ElementLength {
    /// Reads the value of a `Length#` key.
    pub fn parse(what: Option<&str>) -> (r: Result<ElementLength, ParseError>)
        ensures
            length_view(r) == length_of(text_view(what)),
    {
        match what {
            Some(text) => {
                if same_text(text, "-1") {
                    Ok(ElementLength::Unknown)
                } else {
                    match parse_u64(text) {
                        Ok(seconds) => Ok(ElementLength::Seconds(seconds)),
                        Err(e) => Err(ParseError::InvalidInteger(e)),
                    }
                }
            },
            None => Ok(ElementLength::Unknown),
        }
    }
}

} // verus!
