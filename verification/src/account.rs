//! Consistency checks and listings for account snapshots: every order of an
//! instrument snapshot belongs to its instrument, every order of an account
//! snapshot to its exchange, and the assets and instruments of a snapshot are
//! listed once each, in the order they first appear.
use vstd::prelude::*;

use std::collections::HashSet;

verus! {

broadcast use vstd::std_specs::hash::group_hash_axioms;

/// An order names an index other than the one of the snapshot holding it.
#[derive(Clone, Copy, Debug, PartialEq, Eq)]
pub struct IndexMismatch {
    /// The index the order names.
    pub found: usize,
    /// The index of the snapshot.
    pub expected: usize,
}

/// Every index in `found` equals `expected`.
pub open spec fn all_equal(found: Seq<usize>, expected: usize) -> bool {
    forall|i: int| 0 <= i < found.len() ==> found[i] == expected
}

/// Check that every index the orders name equals the snapshot's; the first
/// order that names another index is reported.
pub fn ensure_all_match(expected: usize, found: &Vec<usize>) -> (r: Result<(), IndexMismatch>)
    ensures
        r is Ok <==> all_equal(found@, expected),
        r matches Err(m) ==> m.expected == expected && exists|i: int|
            0 <= i < found@.len() && found@[i] == m.found && m.found != expected && all_equal(
                found@.take(i),
                expected,
            ),
{
    let mut i: usize = 0;
    while i < found.len()
        invariant
            0 <= i <= found@.len(),
            all_equal(found@.take(i as int), expected),
        decreases found@.len() - i,
    {
        if found[i] != expected {
            proof {
                assert(0 <= i < found@.len() && found@[i as int] == found[i as int]);
            }
            return Err(IndexMismatch { found: found[i], expected });
        }
        proof {
            assert forall|j: int| 0 <= j < i + 1 implies #[trigger] found@.take(i + 1)[j]
                == expected by {
                if j < i {
                    assert(found@.take(i + 1)[j] == found@.take(i as int)[j]);
                }
            }
        }
        i = i + 1;
    }
    proof {
        assert(found@.take(i as int) =~= found@);
    }
    Ok(())
}

/// The values of `s` in the order of their first occurrence, each once.
pub open spec fn first_occurrences(s: Seq<usize>) -> Seq<usize>
    decreases s.len(),
{
    if s.len() == 0 {
        Seq::empty()
    } else {
        let earlier = first_occurrences(s.drop_last());
        if earlier.contains(s.last()) {
            earlier
        } else {
            earlier.push(s.last())
        }
    }
}

/// The first occurrences hold no value twice, and hold exactly the values of `s`.
pub proof fn lemma_first_occurrences(s: Seq<usize>)
    ensures
        first_occurrences(s).no_duplicates(),
        forall|x: usize| first_occurrences(s).contains(x) <==> s.contains(x),
    decreases s.len(),
{
    if s.len() > 0 {
        let d = s.drop_last();
        let earlier = first_occurrences(d);
        let last = s.last();
        lemma_first_occurrences(d);
        assert(s =~= d.push(last));
        assert forall|x: usize| s.contains(x) <==> (d.contains(x) || x == last) by {
            if s.contains(x) {
                let k = choose|k: int| 0 <= k < s.len() && s[k] == x;
                if k < d.len() {
                    assert(d[k] == x);
                    assert(d.contains(x));
                }
            }
            if d.contains(x) {
                let k = choose|k: int| 0 <= k < d.len() && d[k] == x;
                assert(s[k] == x);
            }
            if x == last {
                assert(s[s.len() - 1] == x);
            }
        }
        if !earlier.contains(last) {
            let pushed = earlier.push(last);
            assert forall|x: usize| pushed.contains(x) <==> (earlier.contains(x) || x == last) by {
                if pushed.contains(x) {
                    let k = choose|k: int| 0 <= k < pushed.len() && pushed[k] == x;
                    if k < earlier.len() {
                        assert(earlier[k] == x);
                        assert(earlier.contains(x));
                    }
                }
                if earlier.contains(x) {
                    let k = choose|k: int| 0 <= k < earlier.len() && earlier[k] == x;
                    assert(pushed[k] == x);
                }
                if x == last {
                    assert(pushed[earlier.len() as int] == x);
                }
            }
            assert forall|i: int, j: int|
                0 <= i < pushed.len() && 0 <= j < pushed.len() && i != j implies pushed[i]
                != pushed[j] by {
                if i < earlier.len() && j < earlier.len() {
                    assert(pushed[i] == earlier[i] && pushed[j] == earlier[j]);
                } else if i < earlier.len() {
                    assert(pushed[i] == earlier[i]);
                    assert(earlier.contains(pushed[i]));
                } else {
                    assert(pushed[j] == earlier[j]);
                    assert(earlier.contains(pushed[j]));
                }
            }
        }
    }
}

/// The indices of `values` once each, in the order they first appear.
pub fn unique_in_order(values: &Vec<usize>) -> (r: Vec<usize>)
    ensures
        r@ == first_occurrences(values@),
        r@.no_duplicates(),
        forall|x: usize| r@.contains(x) <==> values@.contains(x),
{
    let mut seen: HashSet<usize> = HashSet::new();
    let mut out: Vec<usize> = Vec::new();
    let mut i: usize = 0;
    while i < values.len()
        invariant
            0 <= i <= values@.len(),
            out@ == first_occurrences(values@.take(i as int)),
            forall|x: usize| seen@.contains(x) <==> out@.contains(x),
        decreases values@.len() - i,
    {
        let v = values[i];
        proof {
            assert(values@.take(i + 1).drop_last() =~= values@.take(i as int));
            assert(values@.take(i + 1).last() == v);
        }
        let ghost before = out@;
        if seen.insert(v) {
            out.push(v);
            proof {
                assert(out@.drop_last() =~= before);
                assert forall|x: usize| out@.contains(x) <==> (before.contains(x) || x == v) by {
                    if out@.contains(x) {
                        let k = choose|k: int| 0 <= k < out@.len() && out@[k] == x;
                        if k < before.len() {
                            assert(before[k] == x);
                            assert(before.contains(x));
                        }
                    }
                    if before.contains(x) {
                        let k = choose|k: int| 0 <= k < before.len() && before[k] == x;
                        assert(out@[k] == x);
                    }
                    if x == v {
                        assert(out@[out@.len() - 1] == x);
                    }
                }
            }
        }
        i = i + 1;
    }
    proof {
        assert(values@.take(i as int) =~= values@);
        lemma_first_occurrences(values@);
    }
    out
}

} // verus!
