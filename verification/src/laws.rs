//! What holds between reading and writing.
//!
//! The text of a playlist reaches the parser through the INI reader, whose
//! work is taken on trust and not described here. Most laws below therefore
//! speak of a section: of the values that the writer puts under each key, and
//! of what the parser makes of a section that holds them. Those that speak of
//! the text say what they ask of the reader.

use crate::decimal::{decimal, lemma_decimal_is_digits, lemma_decimal_round_trip, parse_decimal};
use crate::element::{ElementLength, ElementView};
use crate::error::{IniErrorView, ParseErrorView};
use crate::keys::{file_key, is_fixed_key, lemma_keys_differ, length_key, title_key};
use crate::parser::{
    count_text, element_of, elements_of, lemma_error_stays, playlist_of_read,
    playlist_of_section, value_of, version_fault,
};
use crate::reader::ini_read;
use crate::writer::{element_text, elements_text, entry_line, playlist_text};
use vstd::prelude::*;
use vstd::utf8::encode_utf8;

verus! {

/// The text that the writer puts under the length key of an element, if any.
pub open spec fn length_text(len: ElementLength) -> Option<Seq<char>> {
    match len {
        ElementLength::Seconds(seconds) => Some(decimal(seconds as nat)),
        ElementLength::Unknown => None,
    }
}

/// The section `entries` with what the writer puts there for element `index`.
pub open spec fn with_element(
    entries: Map<Seq<char>, Seq<char>>,
    index: nat,
    element: ElementView,
) -> Map<Seq<char>, Seq<char>> {
    let with_path = entries.insert(file_key(index), element.path);
    let with_title = match element.title {
        Some(title) => with_path.insert(title_key(index), title),
        None => with_path,
    };
    match length_text(element.len) {
        Some(text) => with_title.insert(length_key(index), text),
        None => with_title,
    }
}

/// The section that holds what the writer puts there for each of `elements`,
/// the first numbered 1, and nothing else.
pub open spec fn element_entries(elements: Seq<ElementView>) -> Map<Seq<char>, Seq<char>>
    decreases elements.len(),
{
    if elements.len() == 0 {
        Map::empty()
    } else {
        with_element(element_entries(elements.drop_last()), elements.len(), elements.last())
    }
}

/// The section that the writer writes for `elements`: one value for each line
/// of [`playlist_text`] that gives one, under the key of that line.
pub open spec fn written_entries(elements: Seq<ElementView>) -> Map<Seq<char>, Seq<char>> {
    element_entries(elements).insert("NumberOfEntries"@, decimal(elements.len())).insert(
        "Version"@,
        "2"@,
    )
}

/// Whether two sections have the same value, or none, under each key of
/// element `index`.
pub open spec fn same_element_values(
    a: Map<Seq<char>, Seq<char>>,
    b: Map<Seq<char>, Seq<char>>,
    index: nat,
) -> bool {
    &&& value_of(a, file_key(index)) == value_of(b, file_key(index))
    &&& value_of(a, title_key(index)) == value_of(b, title_key(index))
    &&& value_of(a, length_key(index)) == value_of(b, length_key(index))
}

/// The elements of a section rest on the values under their own keys alone.
pub proof fn lemma_elements_rest_on_their_keys(
    a: Map<Seq<char>, Seq<char>>,
    b: Map<Seq<char>, Seq<char>>,
    count: nat,
)
    requires
        forall|index: nat| 1 <= index <= count ==> same_element_values(a, b, index),
    ensures
        elements_of(a, count) == elements_of(b, count),
    decreases count,
{
    if count > 0 {
        lemma_elements_rest_on_their_keys(a, b, (count - 1) as nat);
        assert(same_element_values(a, b, count));
    }
}

/// In the section of the elements alone, each element's values stand under
/// its keys, no key of a later number has a value, and neither has the
/// version key nor any spelling of the count key.
proof fn lemma_element_entries(elements: Seq<ElementView>, index: nat)
    requires
        1 <= index,
    ensures
        index <= elements.len() ==> {
            let element = elements[index - 1];
            &&& value_of(element_entries(elements), file_key(index)) == Some(element.path)
            &&& value_of(element_entries(elements), title_key(index)) == element.title
            &&& value_of(element_entries(elements), length_key(index)) == length_text(
                element.len,
            )
        },
        index > elements.len() ==> {
            &&& !element_entries(elements).contains_key(file_key(index))
            &&& !element_entries(elements).contains_key(title_key(index))
            &&& !element_entries(elements).contains_key(length_key(index))
        },
        forall|key: Seq<char>| is_fixed_key(key) ==> !element_entries(elements).contains_key(key),
    decreases elements.len(),
{
    if elements.len() > 0 {
        let last = elements.len();
        lemma_element_entries(elements.drop_last(), index);
        lemma_keys_differ(index, last);
        lemma_keys_differ(last, index);
        assert forall|key: Seq<char>| is_fixed_key(key) implies !element_entries(
            elements,
        ).contains_key(key) by {
            assert(!element_entries(elements.drop_last()).contains_key(key));
        }
    }
}

/// Element `index` of the section written for `elements` is that element.
proof fn lemma_written_element(elements: Seq<ElementView>, index: nat)
    requires
        1 <= index <= elements.len(),
    ensures
        element_of(written_entries(elements), index) == Ok::<ElementView, ParseErrorView>(
            elements[index - 1],
        ),
{
    let element = elements[index - 1];
    lemma_element_entries(elements, index);
    lemma_keys_differ(index, index);
    match element.len {
        ElementLength::Seconds(seconds) => {
            lemma_decimal_round_trip(seconds);
            lemma_decimal_is_digits(seconds as nat);
            reveal_strlit("-1");
            assert(decimal(seconds as nat)[0] != '-');
        },
        ElementLength::Unknown => {},
    }
}

/// A section whose elements 1 to `count` are those of `elements` has exactly
/// these as its first `count` elements.
pub proof fn lemma_elements_of_each(
    entries: Map<Seq<char>, Seq<char>>,
    elements: Seq<ElementView>,
)
    requires
        forall|index: nat|
            1 <= index <= elements.len() ==> #[trigger] element_of(entries, index) == Ok::<
                ElementView,
                ParseErrorView,
            >(elements[index - 1]),
    ensures
        elements_of(entries, elements.len()) == Ok::<Seq<ElementView>, ParseErrorView>(elements),
    decreases elements.len(),
{
    if elements.len() == 0 {
        assert(elements =~= Seq::empty());
    } else {
        let before = elements.drop_last();
        assert forall|index: nat| 1 <= index <= before.len() implies #[trigger] element_of(
            entries,
            index,
        ) == Ok::<ElementView, ParseErrorView>(before[index - 1]) by {
            assert(before[index - 1] == elements[index - 1]);
        }
        lemma_elements_of_each(entries, before);
        assert(element_of(entries, elements.len()) == Ok::<ElementView, ParseErrorView>(
            elements[elements.len() - 1],
        ));
        assert(before.push(elements.last()) =~= elements);
    }
}

/// Round trip: the section that the writer writes for a list of elements is
/// parsed into that list, with every path, title and length in its place.
pub proof fn law_round_trip(elements: Seq<ElementView>)
    requires
        elements.len() <= u64::MAX,
    ensures
        playlist_of_section(written_entries(elements)) == Ok::<Seq<ElementView>, ParseErrorView>(
            elements,
        ),
{
    let entries = written_entries(elements);
    reveal_strlit("Version");
    reveal_strlit("NumberOfEntries");
    assert("Version"@ != "NumberOfEntries"@) by {
        assert("Version"@[0] != "NumberOfEntries"@[0]);
    }
    assert(version_fault(entries) is None) by {
        reveal_strlit("2");
        assert("2"@ =~= decimal(2));
        lemma_decimal_round_trip(2);
    }
    assert(count_text(entries) == Some(decimal(elements.len())));
    lemma_decimal_round_trip(elements.len() as u64);
    assert forall|index: nat| 1 <= index <= elements.len() implies #[trigger] element_of(
        entries,
        index,
    ) == Ok::<ElementView, ParseErrorView>(elements[index - 1]) by {
        lemma_written_element(elements, index);
    }
    lemma_elements_of_each(entries, elements);
}

/// What the INI reader makes of the text of a playlist.
pub open spec fn read_of_written(elements: Seq<ElementView>) -> Result<
    Map<Seq<char>, Map<Seq<char>, Seq<char>>>,
    IniErrorView,
> {
    ini_read(encode_utf8(playlist_text(elements)))
}

/// Whether the INI reader reads the text of a playlist as it was written:
/// as a document whose section `playlist` is [`written_entries`].
///
/// Whether it does rests on the paths and titles: the reader has its own
/// way with a line break, a backslash, a `;` or `#`, a quote at the start of
/// a value and blanks at its ends.
pub open spec fn reads_as_written(elements: Seq<ElementView>) -> bool {
    read_of_written(elements) matches Ok(sections) && sections.contains_key("playlist"@)
        && sections["playlist"@] == written_entries(elements)
}

/// Round trip through the text: where the INI reader reads the text of a
/// playlist as it was written, parsing that text gives the elements back.
pub proof fn law_round_trip_of_text(elements: Seq<ElementView>)
    requires
        elements.len() <= u64::MAX,
    ensures
        reads_as_written(elements) ==> playlist_of_read(read_of_written(elements)) == Ok::<
            Seq<ElementView>,
            ParseErrorView,
        >(elements),
{
    law_round_trip(elements);
}

/// Idempotence through the text: where the INI reader reads the text of a
/// playlist as it was written, what is parsed from that text is written as
/// the same text again.
pub proof fn law_write_of_text_is_idempotent(
    elements: Seq<ElementView>,
    parsed: Seq<ElementView>,
)
    requires
        elements.len() <= u64::MAX,
    ensures
        reads_as_written(elements) && playlist_of_read(read_of_written(elements)) == Ok::<
            Seq<ElementView>,
            ParseErrorView,
        >(parsed) ==> playlist_text(parsed) == playlist_text(elements),
{
    law_round_trip(elements);
}

/// Order: a section that is parsed gives as many elements as were asked for,
/// and the element at each place is the one that the section numbers so, the
/// first being number 1.
pub proof fn law_elements_in_order(
    entries: Map<Seq<char>, Seq<char>>,
    count: nat,
    elements: Seq<ElementView>,
)
    requires
        elements_of(entries, count) == Ok::<Seq<ElementView>, ParseErrorView>(elements),
    ensures
        elements.len() == count,
        forall|index: nat|
            1 <= index <= count ==> #[trigger] element_of(entries, index) == Ok::<
                ElementView,
                ParseErrorView,
            >(elements[index - 1]),
    decreases count,
{
    if count > 0 {
        let before = elements_of(entries, (count - 1) as nat)->Ok_0;
        law_elements_in_order(entries, (count - 1) as nat, before);
        assert forall|index: nat| 1 <= index <= count implies #[trigger] element_of(
            entries,
            index,
        ) == Ok::<ElementView, ParseErrorView>(elements[index - 1]) by {
            if index < count {
                assert(elements[index - 1] == before[index - 1]);
            }
        }
    }
}

/// The first fault decides: where the elements before `index` are sound and
/// element `index` is not, the section fails with the error of that element,
/// however many elements it counts from there on.
pub proof fn law_first_fault(entries: Map<Seq<char>, Seq<char>>, index: nat, count: nat)
    requires
        1 <= index <= count,
        forall|before: nat| 1 <= before < index ==> #[trigger] element_of(entries, before) is Ok,
        element_of(entries, index) is Err,
    ensures
        elements_of(entries, count) == Err::<Seq<ElementView>, ParseErrorView>(
            element_of(entries, index)->Err_0,
        ),
{
    lemma_sound_elements(entries, (index - 1) as nat);
    lemma_error_stays(entries, index, count);
}

/// Where elements 1 to `count` are sound, so is their run.
proof fn lemma_sound_elements(entries: Map<Seq<char>, Seq<char>>, count: nat)
    requires
        forall|index: nat| 1 <= index <= count ==> #[trigger] element_of(entries, index) is Ok,
    ensures
        elements_of(entries, count) is Ok,
    decreases count,
{
    if count > 0 {
        lemma_sound_elements(entries, (count - 1) as nat);
        assert(element_of(entries, count) is Ok);
    }
}

/// The line that gives the value under `key`, where the section has one.
pub open spec fn line_of(entries: Map<Seq<char>, Seq<char>>, key: Seq<char>) -> Seq<char> {
    match value_of(entries, key) {
        Some(value) => entry_line(key, value),
        None => Seq::empty(),
    }
}

/// The lines that give what a section holds for its elements 1 to `count`,
/// each element followed by a blank line.
pub open spec fn section_elements_text(entries: Map<Seq<char>, Seq<char>>, count: nat) -> Seq<
    char,
>
    decreases count,
{
    if count == 0 {
        Seq::empty()
    } else {
        section_elements_text(entries, (count - 1) as nat) + line_of(entries, file_key(count))
            + line_of(entries, title_key(count)) + line_of(entries, length_key(count)) + "\n"@
    }
}

/// The text of a playlist, line by line, is what [`written_entries`] holds:
/// after the header, each of its lines gives the value that stands there
/// under the key of that line.
pub proof fn law_text_gives_written_entries(elements: Seq<ElementView>)
    ensures
        playlist_text(elements) == "[playlist]\n"@ + section_elements_text(
            written_entries(elements),
            elements.len(),
        ) + line_of(written_entries(elements), "NumberOfEntries"@) + line_of(
            written_entries(elements),
            "Version"@,
        ),
{
    let entries = written_entries(elements);
    reveal_strlit("Version");
    reveal_strlit("NumberOfEntries");
    assert("Version"@[0] != "NumberOfEntries"@[0]);
    lemma_written_elements_text(elements, elements.len());
    assert(elements.take(elements.len() as int) =~= elements);
}

/// The lines of the first `count` elements are what the written section
/// holds for its elements 1 to `count`.
proof fn lemma_written_elements_text(elements: Seq<ElementView>, count: nat)
    requires
        count <= elements.len(),
    ensures
        elements_text(elements.take(count as int)) == section_elements_text(
            written_entries(elements),
            count,
        ),
    decreases count,
{
    let entries = written_entries(elements);
    let taken = elements.take(count as int);
    if count > 0 {
        lemma_written_elements_text(elements, (count - 1) as nat);
        lemma_element_entries(elements, count);
        lemma_keys_differ(count, count);
        assert(taken.drop_last() =~= elements.take(count - 1));
        assert(taken.last() == elements[count - 1]);
        assert(element_text(count, elements[count - 1]) =~= line_of(entries, file_key(count))
            + line_of(entries, title_key(count)) + line_of(entries, length_key(count)) + "\n"@);
        assert(elements_text(taken) =~= section_elements_text(entries, count));
    }
}

/// Idempotence: what is parsed from the section written for a list of
/// elements is written as the same text again.
pub proof fn law_write_is_idempotent(elements: Seq<ElementView>, parsed: Seq<ElementView>)
    requires
        elements.len() <= u64::MAX,
        playlist_of_section(written_entries(elements)) == Ok::<Seq<ElementView>, ParseErrorView>(
            parsed,
        ),
    ensures
        playlist_text(parsed) == playlist_text(elements),
{
    law_round_trip(elements);
}

/// The three spellings of the count key: a section that has the count under
/// one of them, and under no other, is parsed alike whichever it is.
pub proof fn law_count_spellings(entries: Map<Seq<char>, Seq<char>>, count: Seq<char>)
    requires
        !entries.contains_key("NumberOfEntries"@),
        !entries.contains_key("numberofentries"@),
        !entries.contains_key("NumberOfEvents"@),
    ensures
        playlist_of_section(entries.insert("numberofentries"@, count)) == playlist_of_section(
            entries.insert("NumberOfEntries"@, count),
        ),
        playlist_of_section(entries.insert("NumberOfEvents"@, count)) == playlist_of_section(
            entries.insert("NumberOfEntries"@, count),
        ),
{
    let first = entries.insert("NumberOfEntries"@, count);
    let second = entries.insert("numberofentries"@, count);
    let third = entries.insert("NumberOfEvents"@, count);
    reveal_strlit("NumberOfEntries");
    reveal_strlit("numberofentries");
    reveal_strlit("NumberOfEvents");
    reveal_strlit("Version");
    assert("NumberOfEntries"@[0] != "numberofentries"@[0]);
    assert("NumberOfEntries"@[9] != "NumberOfEvents"@[9]);
    assert("NumberOfEvents"@[0] != "numberofentries"@[0]);
    assert("Version"@[0] != "NumberOfEntries"@[0]);
    assert("Version"@[0] != "numberofentries"@[0]);
    assert("Version"@[0] != "NumberOfEvents"@[0]);
    assert(count_text(first) == Some(count));
    assert(count_text(second) == Some(count));
    assert(count_text(third) == Some(count));
    assert(version_fault(first) == version_fault(entries));
    assert(version_fault(second) == version_fault(entries));
    assert(version_fault(third) == version_fault(entries));
    if parse_decimal(count) is Ok {
        let n = parse_decimal(count)->Ok_0 as nat;
        assert forall|index: nat| 1 <= index <= n implies same_element_values(
            second,
            first,
            index,
        ) && same_element_values(third, first, index) by {
            lemma_keys_differ(index, index);
        }
        lemma_elements_rest_on_their_keys(second, first, n);
        lemma_elements_rest_on_their_keys(third, first, n);
    }
}

/// The empty playlist: a section with a sound version, or none, and the count
/// 0 holds no element, whatever else it holds; and the text of no elements
/// gives the count as 0.
pub proof fn law_empty_playlist(entries: Map<Seq<char>, Seq<char>>)
    requires
        version_fault(entries) is None,
        count_text(entries) == Some("0"@),
    ensures
        playlist_of_section(entries) == Ok::<Seq<ElementView>, ParseErrorView>(Seq::empty()),
        playlist_text(Seq::empty()) == "[playlist]\nNumberOfEntries=0\nVersion=2\n"@,
        count_text(written_entries(Seq::empty())) == Some("0"@),
{
    reveal_strlit("0");
    assert("0"@ =~= decimal(0));
    lemma_decimal_round_trip(0);
    reveal_strlit("[playlist]\nNumberOfEntries=0\nVersion=2\n");
    reveal_strlit("[playlist]\n");
    reveal_strlit("NumberOfEntries");
    reveal_strlit("Version");
    reveal_strlit("2");
    reveal_strlit("=");
    reveal_strlit("\n");
    assert(playlist_text(Seq::empty()) =~= "[playlist]\nNumberOfEntries=0\nVersion=2\n"@);
    assert("Version"@[0] != "NumberOfEntries"@[0]);
}

} // verus!
