//! Comparison of texts, character by character.

use vstd::prelude::*;
use vstd::std_specs::iter::IteratorSpec;

verus! {

/// Whether `a` and `b` hold the same characters.
pub fn same_text(a: &str, b: &str) -> (r: bool)
    ensures
        r == (a@ == b@),
{
    let mut left = a.chars();
    let mut right = b.chars();
    let ghost mut k: int = 0;
    loop
        invariant
            left.obeys_prophetic_iter_laws(),
            right.obeys_prophetic_iter_laws(),
            0 <= k <= a@.len(),
            k <= b@.len(),
            a@.take(k) == b@.take(k),
            left.remaining() == a@.skip(k),
            right.remaining() == b@.skip(k),
        decreases a@.len() - k,
    {
        let x = left.next();
        let y = right.next();
        match (x, y) {
            (None, None) => {
                proof {
                    assert(a@.take(k) =~= a@);
                    assert(b@.take(k) =~= b@);
                }
                return true;
            },
            (Some(c), Some(d)) => {
                if c != d {
                    proof {
                        assert(a@[k] != b@[k]);
                    }
                    return false;
                }
                proof {
                    assert(a@.take(k + 1) =~= a@.take(k).push(c));
                    assert(b@.take(k + 1) =~= b@.take(k).push(d));
                    assert(a@.skip(k).drop_first() =~= a@.skip(k + 1));
                    assert(b@.skip(k).drop_first() =~= b@.skip(k + 1));
                    k = k + 1;
                }
            },
            _ => {
                return false;
            },
        }
    }
}

} // verus!
