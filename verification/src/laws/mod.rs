//! What holds of the operations of the library, whatever they are given.
//!
//! Each law speaks of calls: `call_ensures` says that a call with these
//! arguments gave this result. What a call makes of a value that it changes is
//! that value's `final`.
use vstd::prelude::*;

pub mod building;
pub mod channel;
pub mod client;
pub mod hearing;
pub mod inputs;
pub mod maps;
pub mod messages;
pub mod presence;
pub mod request;
pub mod sync;

use crate::places::places;

verus! {

/// Whether numbers stand in increasing order.
pub open spec fn increasing(numbers: Seq<int>) -> bool {
    forall|i: int, j: int|
        0 <= i < j < numbers.len() ==> #[trigger] numbers[i] < #[trigger] numbers[j]
}

pub(crate) proof fn lemma_places_increase(n: int, chosen: spec_fn(int) -> bool)
    ensures
        increasing(places(n, chosen)),
        forall|i: int|
            0 <= i < places(n, chosen).len() ==> 0 <= #[trigger] places(n, chosen)[i] < n && chosen(
                places(n, chosen)[i],
            ),
    decreases n,
{
    if n > 0 {
        lemma_places_increase(n - 1, chosen);
    }
}

} // verus!
