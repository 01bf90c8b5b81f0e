//! Places in a list, in the order in which they stand there, and the beginnings
//! of a list.
use vstd::prelude::*;

verus! {

/// The places below `n` at which `chosen` holds, in increasing order.
pub open spec fn places(n: int, chosen: spec_fn(int) -> bool) -> Seq<int>
    decreases n,
{
    if n <= 0 {
        Seq::empty()
    } else if chosen(n - 1) {
        places(n - 1, chosen).push(n - 1)
    } else {
        places(n - 1, chosen)
    }
}

/// Places that a program computed, as mathematical integers.
pub open spec fn as_places(found: Seq<usize>) -> Seq<int> {
    found.map_values(|place: usize| place as int)
}

/// A place is among the chosen ones if and only if it is below the bound and
/// chosen.
pub proof fn chosen_places(n: int, chosen: spec_fn(int) -> bool, place: int)
    ensures
        places(n, chosen).contains(place) <==> 0 <= place < n && chosen(place),
    decreases n,
{
    if n > 0 {
        chosen_places(n - 1, chosen, place);
        let before = places(n - 1, chosen);
        let now = places(n, chosen);
        if chosen(n - 1) {
            if before.contains(place) {
                assert(now[before.index_of(place)] == place);
            }
            if place == n - 1 {
                assert(now[before.len() as int] == place);
            }
            if now.contains(place) && place != n - 1 {
                assert(before[now.index_of(place)] == place);
            }
        }
    }
}

/// The first `n + 1` items of a list are the first `n` and the next one.
pub(crate) proof fn lemma_longer_take<A>(s: Seq<A>, n: int)
    requires
        0 <= n < s.len(),
    ensures
        s.take(n + 1) == s.take(n).push(s[n]),
        s.take(n + 1).drop_last() == s.take(n),
        forall|a: A| #[trigger] s.take(n + 1).contains(a) <==> a == s[n] || s.take(n).contains(a),
{
    let taken = s.take(n);
    let next = s.take(n + 1);
    assert(next =~= taken.push(s[n]));
    assert(next.drop_last() =~= taken);
    assert forall|a: A| #[trigger] next.contains(a) <==> a == s[n] || taken.contains(a) by {
        if taken.contains(a) {
            assert(next[taken.index_of(a)] == a);
        }
        if a == s[n] {
            assert(next[n] == a);
        }
    }
}

} // verus!
