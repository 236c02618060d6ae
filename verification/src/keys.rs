//! The keys of a playlist section.

use crate::decimal::{decimal, lemma_decimal_injective, u64_to_decimal};
use vstd::prelude::*;
use vstd::string::StringExecFns;

verus! {

/// The key of the path of element `index`.
pub open spec fn file_key(index: nat) -> Seq<char> {
    "File"@ + decimal(index)
}

/// The key of the title of element `index`.
pub open spec fn title_key(index: nat) -> Seq<char> {
    "Title"@ + decimal(index)
}

/// The key of the length of element `index`.
pub open spec fn length_key(index: nat) -> Seq<char> {
    "Length"@ + decimal(index)
}

/// The key made of `prefix` and the number `index`.
pub(crate) fn numbered_key(prefix: &str, index: u64) -> (r: String)
    ensures
        r@ == prefix@ + decimal(index as nat),
{
    let mut r = String::from_str(prefix);
    r.append(u64_to_decimal(index).as_str());
    r
}

/// Whether `key` is the version key or a spelling of the count key.
pub open spec fn is_fixed_key(key: Seq<char>) -> bool {
    ||| key == "Version"@
    ||| key == "NumberOfEntries"@
    ||| key == "numberofentries"@
    ||| key == "NumberOfEvents"@
}

/// The keys of an element differ from each other, from the keys of every
/// other element, from each spelling of the count key and from the version
/// key.
pub proof fn lemma_keys_differ(a: nat, b: nat)
    ensures
        file_key(a) != title_key(b),
        file_key(a) != length_key(b),
        title_key(a) != length_key(b),
        a != b ==> file_key(a) != file_key(b),
        a != b ==> title_key(a) != title_key(b),
        a != b ==> length_key(a) != length_key(b),
        !is_fixed_key(file_key(a)),
        !is_fixed_key(title_key(a)),
        !is_fixed_key(length_key(a)),
{
    reveal_strlit("File");
    reveal_strlit("Title");
    reveal_strlit("Length");
    reveal_strlit("NumberOfEntries");
    reveal_strlit("numberofentries");
    reveal_strlit("NumberOfEvents");
    reveal_strlit("Version");
    assert(file_key(a)[0] == 'F' && file_key(b)[0] == 'F');
    assert(title_key(a)[0] == 'T' && title_key(b)[0] == 'T');
    assert(length_key(a)[0] == 'L' && length_key(b)[0] == 'L');
    assert("NumberOfEntries"@[0] == 'N');
    assert("numberofentries"@[0] == 'n');
    assert("NumberOfEvents"@[0] == 'N');
    assert("Version"@[0] == 'V');
    if a != b {
        if file_key(a) == file_key(b) {
            assert(file_key(a).skip(4) =~= decimal(a));
            assert(file_key(b).skip(4) =~= decimal(b));
            lemma_decimal_injective(a, b);
        }
        if title_key(a) == title_key(b) {
            assert(title_key(a).skip(5) =~= decimal(a));
            assert(title_key(b).skip(5) =~= decimal(b));
            lemma_decimal_injective(a, b);
        }
        if length_key(a) == length_key(b) {
            assert(length_key(a).skip(6) =~= decimal(a));
            assert(length_key(b).skip(6) =~= decimal(b));
            lemma_decimal_injective(a, b);
        }
    }
}

} // verus!
