//! Comparing text by its characters.

use vstd::prelude::*;
use vstd::std_specs::iter::IteratorSpec;
use vstd::string::*;

verus! {

/// Whether `a` and `b` hold the same characters in the same order.
pub fn same_text(a: &str, b: &str) -> (same: bool)
    ensures
        same == (a@ == b@),
{
    broadcast use vstd::string::group_string_axioms;

    let mut left = a.chars();
    let mut right = b.chars();
    let ghost mut at: int = 0;
    loop
        invariant
            0 <= at <= a@.len(),
            at <= b@.len(),
            left.obeys_prophetic_iter_laws(),
            right.obeys_prophetic_iter_laws(),
            left.remaining() == a@.skip(at),
            right.remaining() == b@.skip(at),
            a@.take(at) == b@.take(at),
        decreases a@.len() - at,
    {
        match left.next() {
            None => {
                let last = right.next();
                assert(a@.take(at) =~= a@);
                if last.is_none() {
                    assert(b@.take(at) =~= b@);
                }
                return last.is_none();
            },
            Some(x) => {
                match right.next() {
                    None => {
                        return false;
                    },
                    Some(y) => {
                        if x != y {
                            return false;
                        }
                        proof {
                            at = at + 1;
                        }
                    },
                }
            },
        }
    }
}

} // verus!
