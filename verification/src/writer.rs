//! From the elements of a playlist to its text.

use crate::decimal::{decimal, u64_to_decimal};
use crate::element::{ElementLength, ElementView, PlaylistElement};
use crate::keys::{file_key, length_key, numbered_key, title_key};
use vstd::prelude::*;
use vstd::string::StringExecFns;

verus! {

/// The line that gives `value` under `key`.
pub open spec fn entry_line(key: Seq<char>, value: Seq<char>) -> Seq<char> {
    key + "="@ + value + "\n"@
}

/// The lines of element `index`: its path, its title if it has one, its
/// length if that is known, and one blank line.
pub open spec fn element_text(index: nat, element: ElementView) -> Seq<char> {
    entry_line(file_key(index), element.path) + match element.title {
        Some(title) => entry_line(title_key(index), title),
        None => Seq::empty(),
    } + match element.len {
        ElementLength::Seconds(seconds) => entry_line(length_key(index), decimal(seconds as nat)),
        ElementLength::Unknown => Seq::empty(),
    } + "\n"@
}

/// The lines of all elements in order, the first numbered 1.
pub open spec fn elements_text(elements: Seq<ElementView>) -> Seq<char>
    decreases elements.len(),
{
    if elements.len() == 0 {
        Seq::empty()
    } else {
        elements_text(elements.drop_last()) + element_text(elements.len(), elements.last())
    }
}

/// The text of a playlist: the section header, the elements, their number
/// and the version, which is always 2.
pub open spec fn playlist_text(elements: Seq<ElementView>) -> Seq<char> {
    "[playlist]\n"@ + elements_text(elements) + entry_line(
        "NumberOfEntries"@,
        decimal(elements.len()),
    ) + entry_line("Version"@, "2"@)
}

/// Appends the line that gives `value` under `key`.
pub(crate) fn append_line(out: &mut String, key: &str, value: &str)
    ensures
        final(out)@ == old(out)@ + entry_line(key@, value@),
{
    out.append(key);
    out.append("=");
    out.append(value);
    out.append("\n");
    assert(out@ =~= old(out)@ + entry_line(key@, value@));
}

/// Appends the line that gives `value` under the key made of `prefix` and
/// `index`.
fn append_numbered(out: &mut String, prefix: &str, index: u64, value: &str)
    ensures
        final(out)@ == old(out)@ + entry_line(prefix@ + decimal(index as nat), value@),
{
    append_line(out, numbered_key(prefix, index).as_str(), value);
}

/// Appends the lines of element `index`.
pub(crate) fn append_element(out: &mut String, index: u64, element: &PlaylistElement)
    ensures
        final(out)@ == old(out)@ + element_text(index as nat, element@),
{
    append_numbered(out, "File", index, element.path.as_str());
    match &element.title {
        Some(title) => {
            append_numbered(out, "Title", index, title.as_str());
        },
        None => {},
    }
    match element.len {
        ElementLength::Seconds(seconds) => {
            append_numbered(out, "Length", index, u64_to_decimal(seconds).as_str());
        },
        ElementLength::Unknown => {},
    }
    out.append("\n");
    assert(out@ =~= old(out)@ + element_text(index as nat, element@));
}

} // verus!
