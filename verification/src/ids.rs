//! Identifiers: random candidates, and the search for one that is not in use.

use vstd::prelude::*;
use vstd::set_lib::*;
use uuid::Uuid;
use crate::table::{Table, table_entries, table_get, table_len};

verus! {

/// `Uuid::new_v4`, as its 128-bit integer: a random value whose version field
/// says 4 and whose variant field says RFC 9562. The call panics where the
/// system's source of randomness fails; no caller can rule that out, and the
/// library treats it as a fault of the machine.
#[verifier::external_body]
pub(crate) fn random_id() -> (id: u128)
    ensures
        id & 0xF000_C000_0000_0000_0000 == 0x4000_8000_0000_0000_0000,
{
    Uuid::new_v4().as_u128()
}

/// The id `n` steps after `start`, going round from the largest id to zero.
pub open spec fn nth_after(start: u128, n: nat) -> u128 {
    if start + n <= u128::MAX {
        (start + n) as u128
    } else {
        (start + n - 0x1_0000_0000_0000_0000_0000_0000_0000_0000) as u128
    }
}

/// Whether the first id from `start` on that `taken` lacks is the one `n`
/// steps after `start`.
pub open spec fn first_vacancy_at(taken: Set<u128>, start: u128, n: nat) -> bool {
    &&& n <= u128::MAX
    &&& !taken.contains(nth_after(start, n))
    &&& forall|m: nat| m < n ==> taken.contains(#[trigger] nth_after(start, m))
}

/// Whether `id` is the first id from `start` on, going round, that `taken` lacks.
pub open spec fn is_first_vacant(taken: Set<u128>, start: u128, id: u128) -> bool {
    exists|n: nat| first_vacancy_at(taken, start, n) && id == nth_after(start, n)
}

/// At most one id is the first vacant one.
pub proof fn lemma_first_vacant_unique(taken: Set<u128>, start: u128, a: u128, b: u128)
    requires
        is_first_vacant(taken, start, a),
        is_first_vacant(taken, start, b),
    ensures
        a == b,
{
    let n: nat = choose|n: nat| first_vacancy_at(taken, start, n) && a == nth_after(start, n);
    let m: nat = choose|m: nat| first_vacancy_at(taken, start, m) && b == nth_after(start, m);
    if n < m {
        assert(taken.contains(nth_after(start, n)));
    } else if m < n {
        assert(taken.contains(nth_after(start, m)));
    }
}

/// The first id from `candidate` on that is no key of `t`. The search ends
/// because a table holds fewer entries than there are ids.
pub(crate) fn vacant_id(t: &Table, candidate: u128) -> (id: u128)
    requires
        table_entries(*t).dom().finite(),
    ensures
        is_first_vacant(table_entries(*t).dom(), candidate, id),
{
    let ghost taken = table_entries(*t).dom();
    let limit: usize = table_len(t);
    let mut id: u128 = candidate;
    let mut steps: usize = 0;
    let ghost mut seen: Set<u128> = Set::empty();
    while table_get(t, id).is_some()
        invariant
            taken == table_entries(*t).dom(),
            taken.finite(),
            limit == taken.len(),
            steps <= limit,
            id == nth_after(candidate, steps as nat),
            seen.finite(),
            seen.len() == steps,
            seen.subset_of(taken),
            forall|m: nat| m < steps ==> seen.contains(#[trigger] nth_after(candidate, m)),
            forall|x: u128|
                seen.contains(x) ==> exists|m: nat|
                    m < steps && x == #[trigger] nth_after(candidate, m),
        decreases limit - steps,
    {
        proof {
            assert(!seen.contains(id)) by {
                if seen.contains(id) {
                    let m: nat = choose|m: nat|
                        m < steps && id == #[trigger] nth_after(candidate, m);
                    assert(nth_after(candidate, m) != nth_after(candidate, steps as nat));
                }
            }
            let grown = seen.insert(id);
            assert(grown.subset_of(taken));
            lemma_len_subset(grown, taken);
            assert forall|x: u128| grown.contains(x) implies exists|m: nat|
                m < steps + 1 && x == #[trigger] nth_after(candidate, m) by {
                if x == id {
                    assert(id == nth_after(candidate, steps as nat));
                } else {
                    let m: nat = choose|m: nat|
                        m < steps && x == #[trigger] nth_after(candidate, m);
                    assert(m < steps + 1);
                }
            }
            seen = grown;
        }
        id = id.wrapping_add(1);
        steps = steps + 1;
    }
    proof {
        assert(first_vacancy_at(taken, candidate, steps as nat));
    }
    id
}

} // verus!
