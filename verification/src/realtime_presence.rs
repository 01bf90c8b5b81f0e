use vstd::prelude::*;

use crate::message::presence::{
    PhxMap, PresenceDiff, PresenceEvent, PresenceModel, PresenceState, PresenceStateInner,
};
use crate::places::{as_places, chosen_places, lemma_longer_take, places};
use crate::string_map::{Deep, StringMap};

verus! {

/// A call that a presence callback is due.
#[derive(Debug, Clone)]
pub struct PresenceCall {
    /// The place of the callback in the list of presence callbacks.
    pub callback: usize,
    pub id: String,
    pub old_state: PresenceState,
    pub new_state: PresenceState,
}

/// The model of a [`PresenceCall`].
pub struct PresenceCallModel {
    pub callback: int,
    pub id: Seq<char>,
    pub old_state: PresenceModel,
    pub new_state: PresenceModel,
}

impl PresenceCall {
    pub open spec fn model(&self) -> PresenceCallModel {
        PresenceCallModel {
            callback: self.callback as int,
            id: self.id@,
            old_state: self.old_state.model(),
            new_state: self.new_state.model(),
        }
    }
}

/// The models of a list of calls.
pub open spec fn calls_model(calls: Seq<PresenceCall>) -> Seq<PresenceCallModel> {
    calls.map_values(|call: PresenceCall| call.model())
}

/// One call of each callback for one id.
pub open spec fn calls_for(
    callbacks: Seq<int>,
    id: Seq<char>,
    old_state: PresenceModel,
    new_state: PresenceModel,
) -> Seq<PresenceCallModel> {
    callbacks.map_values(
        |callback: int| PresenceCallModel { callback, id, old_state, new_state },
    )
}

/// For each id in turn, one call of each callback with the same two states.
pub open spec fn calls_for_all(
    callbacks: Seq<int>,
    ids: Seq<Seq<char>>,
    old_state: PresenceModel,
    new_state: PresenceModel,
) -> Seq<PresenceCallModel>
    decreases ids.len(),
{
    if ids.len() == 0 {
        Seq::empty()
    } else {
        calls_for_all(callbacks, ids.drop_last(), old_state, new_state) + calls_for(
            callbacks,
            ids.last(),
            old_state,
            new_state,
        )
    }
}

/// The state without the given ids.
pub open spec fn without(state: PresenceModel, ids: Seq<Seq<char>>) -> PresenceModel {
    state.remove_keys(ids.to_set())
}

/// For each id that leaves in turn, one call of each callback with the state
/// that the ids before it have already left.
pub open spec fn leave_calls(
    callbacks: Seq<int>,
    ids: Seq<Seq<char>>,
    state: PresenceModel,
    leaves: PresenceModel,
) -> Seq<PresenceCallModel>
    decreases ids.len(),
{
    if ids.len() == 0 {
        Seq::empty()
    } else {
        leave_calls(callbacks, ids.drop_last(), state, leaves) + calls_for(
            callbacks,
            ids.last(),
            without(state, ids.drop_last()),
            leaves,
        )
    }
}

/// The ids of a state, each without any reference.
pub open spec fn emptied(state: PresenceModel) -> PresenceModel {
    state.map_values(|refs: Map<Seq<char>, Map<Seq<char>, serde_json::Value>>| Map::empty())
}

/// Who is present on a channel, and the callbacks that hear of it.
#[derive(Debug)]
pub struct RealtimePresence<P> {
    pub state: PresenceState,
    pub callbacks: Vec<(PresenceEvent, P)>,
}

impl<P> RealtimePresence<P> {
    /// Which callbacks hear of an event.
    pub open spec fn hears(&self, event: PresenceEvent) -> spec_fn(int) -> bool {
        |i: int| self.callbacks@[i].0 == event
    }

    /// The places of the callbacks for an event, in the order in which they
    /// were registered.
    pub open spec fn callbacks_for(&self, event: PresenceEvent) -> Seq<int> {
        places(self.callbacks@.len() as int, self.hears(event))
    }

    /// Whether `after` is what a change makes of `before`, and `calls` are the
    /// calls that the callbacks are due: first those for who joined, with the
    /// state before the change, then those for who left, each with the state
    /// that the ids before it have already left.
    pub open spec fn took_diff(
        before: Self,
        after: Self,
        joins: PresenceModel,
        joined: Seq<Seq<char>>,
        leaves: PresenceModel,
        left: Seq<Seq<char>>,
        calls: Seq<PresenceCall>,
    ) -> bool {
        &&& after.callbacks == before.callbacks
        &&& after.state.model() == without(before.state.model(), left).union_prefer_right(joins)
        &&& calls_model(calls) == calls_for_all(
            before.callbacks_for(PresenceEvent::Join),
            joined,
            before.state.model(),
            joins,
        ) + leave_calls(
            before.callbacks_for(PresenceEvent::Leave),
            left,
            before.state.model(),
            leaves,
        )
    }

    /// Whether `after` is what a whole new state makes of `before`, and `calls`
    /// are the calls that the callbacks are due: everyone in the new state
    /// joins, everyone in the old one leaves with nothing, and everyone in the
    /// new state is synced.
    pub open spec fn took_state(
        before: Self,
        after: Self,
        state: PresenceModel,
        ids: Seq<Seq<char>>,
        calls: Seq<PresenceCall>,
    ) -> bool {
        &&& after.callbacks == before.callbacks
        &&& after.state.model() == state
        &&& after.state.0.keys() == ids
        &&& calls_model(calls) == calls_for_all(
            before.callbacks_for(PresenceEvent::Join),
            ids,
            before.state.model(),
            state,
        ) + leave_calls(
            before.callbacks_for(PresenceEvent::Leave),
            before.state.0.keys(),
            before.state.model(),
            emptied(before.state.model()),
        ) + calls_for_all(
            before.callbacks_for(PresenceEvent::Sync),
            ids,
            before.state.model(),
            state,
        )
    }

    pub fn from_channel_builder(callbacks: Vec<(PresenceEvent, P)>) -> (presence: Self)
        ensures
            presence.state.model() == PresenceModel::empty(),
            presence.state.0.keys() == Seq::<Seq<char>>::empty(),
            presence.callbacks == callbacks,
    {
        RealtimePresence { state: PresenceState::default(), callbacks }
    }

    fn select(&self, event: PresenceEvent) -> (found: Vec<usize>)
        ensures
            as_places(found@) == self.callbacks_for(event),
    {
        let mut found: Vec<usize> = Vec::new();
        let ghost chosen = self.hears(event);
        proof {
            assert(as_places(found@) =~= places(0, chosen));
        }
        for i in 0..self.callbacks.len()
            invariant
                chosen == self.hears(event),
                as_places(found@) == places(i as int, chosen),
        {
            let ghost before = found@;
            if self.callbacks[i].0 == event {
                found.push(i);
                proof {
                    assert(as_places(found@) =~= as_places(before).push(i as int));
                }
            }
        }
        found
    }
}

/// Adds one call of each callback for one id.
fn push_calls(
    calls: &mut Vec<PresenceCall>,
    callbacks: &Vec<usize>,
    id: &String,
    old_state: &PresenceState,
    new_state: &PresenceState,
)
    ensures
        calls_model(final(calls)@) == calls_model(old(calls)@) + calls_for(
            as_places(callbacks@),
            id@,
            old_state.model(),
            new_state.model(),
        ),
{
    let ghost before = calls@;
    let ghost due = calls_for(as_places(callbacks@), id@, old_state.model(), new_state.model());
    proof {
        assert(calls_model(calls@) =~= calls_model(before) + due.take(0));
    }
    for i in 0..callbacks.len()
        invariant
            due == calls_for(as_places(callbacks@), id@, old_state.model(), new_state.model()),
            calls_model(calls@) == calls_model(before) + due.take(i as int),
    {
        let ghost earlier = calls@;
        let call = PresenceCall {
            callback: callbacks[i],
            id: id.clone(),
            old_state: old_state.duplicate(),
            new_state: new_state.duplicate(),
        };
        calls.push(call);
        proof {
            assert(calls_model(calls@) =~= calls_model(earlier).push(call.model()));
            assert(due.take(i + 1) =~= due.take(i as int).push(due[i as int]));
            assert(call.model() == due[i as int]);
            assert(calls_model(calls@) =~= calls_model(before) + due.take(i + 1));
        }
    }
    proof {
        assert(due.take(callbacks@.len() as int) =~= due);
    }
}

/// Adds, for each id of `ids` in turn, one call of each callback.
fn push_calls_for_all(
    calls: &mut Vec<PresenceCall>,
    callbacks: &Vec<usize>,
    ids: &PresenceState,
    old_state: &PresenceState,
    new_state: &PresenceState,
)
    ensures
        calls_model(final(calls)@) == calls_model(old(calls)@) + calls_for_all(
            as_places(callbacks@),
            ids.0.keys(),
            old_state.model(),
            new_state.model(),
        ),
{
    let ghost before = calls@;
    let ghost chosen = as_places(callbacks@);
    let ghost keys = ids.0.keys();
    let count: usize = ids.0.len();
    proof {
        assert(calls_model(calls@) =~= calls_model(before) + calls_for_all(
            chosen,
            keys.take(0),
            old_state.model(),
            new_state.model(),
        ));
    }
    for i in 0..count
        invariant
            chosen == as_places(callbacks@),
            keys == ids.0.keys(),
            count == keys.len(),
            calls_model(calls@) == calls_model(before) + calls_for_all(
                chosen,
                keys.take(i as int),
                old_state.model(),
                new_state.model(),
            ),
    {
        push_calls(calls, callbacks, ids.0.key_at(i), old_state, new_state);
        proof {
            assert(keys.take(i + 1).drop_last() =~= keys.take(i as int));
            assert(calls_model(calls@) =~= calls_model(before) + calls_for_all(
                chosen,
                keys.take(i + 1),
                old_state.model(),
                new_state.model(),
            ));
        }
    }
    proof {
        assert(keys.take(count as int) =~= keys);
    }
}

impl<P> RealtimePresence<P> {
    /// Takes in a change: who joined and who left. The ids that left go, then
    /// the ids that joined come with what they brought.
    ///
    /// Returns the calls that the join callbacks and then the leave callbacks
    /// are due.
    pub fn sync_diff(&mut self, diff: PresenceDiff) -> (calls: Vec<PresenceCall>)
        ensures
            Self::took_diff(
                *old(self),
                *final(self),
                diff.joins.model(),
                diff.joins.0.keys(),
                diff.leaves.model(),
                diff.leaves.0.keys(),
                calls@,
            ),
            without(old(self).state.model(), diff.leaves.0.keys()) == PresenceModel::empty()
                ==> final(self).state.0.keys() == diff.joins.0.keys(),
            diff.joins.0.ordered(),
            diff.leaves.0.ordered(),
    {
        let mut calls: Vec<PresenceCall> = Vec::new();
        let join_callbacks = self.select(PresenceEvent::Join);
        let leave_callbacks = self.select(PresenceEvent::Leave);
        let ghost start = self.state.model();
        let ghost chosen = as_places(leave_callbacks@);
        let ghost keys = diff.leaves.0.keys();
        push_calls_for_all(&mut calls, &join_callbacks, &diff.joins, &self.state, &diff.joins);
        let ghost joined = calls_model(calls@);
        let count: usize = diff.leaves.0.len();
        let _ = diff.joins.0.len();
        proof {
            assert(without(start, keys.take(0)) =~= start);
            assert(calls_model(calls@) =~= joined + leave_calls(
                chosen,
                keys.take(0),
                start,
                diff.leaves.model(),
            ));
        }
        for i in 0..count
            invariant
                chosen == as_places(leave_callbacks@),
                keys == diff.leaves.0.keys(),
                count == keys.len(),
                self.callbacks == old(self).callbacks,
                self.state.model() == without(start, keys.take(i as int)),
                calls_model(calls@) == joined + leave_calls(
                    chosen,
                    keys.take(i as int),
                    start,
                    diff.leaves.model(),
                ),
        {
            let id = diff.leaves.0.key_at(i);
            let ghost earlier = self.state;
            push_calls(&mut calls, &leave_callbacks, id, &self.state, &diff.leaves);
            self.state.0.remove(id);
            proof {
                let next = keys.take(i + 1);
                lemma_longer_take(keys, i as int);
                assert(self.state.model() =~= earlier.model().remove(id@));
                assert(self.state.model() =~= without(start, next));
                assert(calls_model(calls@) =~= joined + leave_calls(
                    chosen,
                    next,
                    start,
                    diff.leaves.model(),
                ));
            }
        }
        let ghost left = self.state;
        let ghost joins = diff.joins;
        self.state.0.extend(diff.joins.0);
        proof {
            assert(keys.take(count as int) =~= keys);
            assert(self.state.model() =~= left.model().union_prefer_right(joins.model()));
            if left.model() == PresenceModel::empty() {
                assert(left.0.keys() =~= Seq::<Seq<char>>::empty()) by {
                    if left.0.keys().len() > 0 {
                        assert(left.0.keys().contains(left.0.keys()[0]));
                        assert(left.0@.contains_key(left.0.keys()[0]));
                        assert(left.model().contains_key(left.0.keys()[0]));
                    }
                }
                let fresh = |key: Seq<char>| !left.0@.contains_key(key);
                assert forall|key: Seq<char>| #[trigger] fresh(key) by {
                    assert(left.0@.contains_key(key) == left.model().contains_key(key));
                }
                lemma_filter_all(joins.0.keys(), fresh);
                assert(self.state.0.keys() =~= joins.0.keys());
            }
        }
        calls
    }
}

impl<P> RealtimePresence<P> {
    /// Takes in the whole state that the server knows. Every id of the old
    /// state leaves, every id of the new one joins, and the new state stands.
    ///
    /// Returns the calls that the join callbacks, then the leave callbacks and
    /// then the sync callbacks are due.
    pub fn sync(&mut self, new_state: PresenceState) -> (calls: Vec<PresenceCall>)
        ensures
            Self::took_state(
                *old(self),
                *final(self),
                new_state.model(),
                new_state.0.keys(),
                calls@,
            ),
            old(self).state.0.ordered(),
            new_state.0.ordered(),
    {
        let sync_callbacks = self.select(PresenceEvent::Sync);
        let prev_state = PresenceState(self.state.0.copy());
        let mut leaves: PresenceStateInner = StringMap::new();
        let ghost keys = self.state.0.keys();
        let ghost start = self.state.model();
        let ids: usize = self.state.0.len();
        for i in 0..ids
            invariant
                keys == self.state.0.keys(),
                ids == keys.len(),
                keys.no_duplicates(),
                leaves.keys() == keys.take(i as int),
                forall|id: Seq<char>| #[trigger]
                    leaves@.contains_key(id) <==> keys.take(i as int).contains(id),
                forall|id: Seq<char>| #[trigger]
                    leaves@.contains_key(id) ==> leaves@[id].model() == Map::<
                        Seq<char>,
                        Map<Seq<char>, serde_json::Value>,
                    >::empty(),
        {
            let id = self.state.0.key_at(i);
            let nobody: PhxMap = StringMap::new();
            proof {
                assert(nobody.model() =~= Map::<
                    Seq<char>,
                    Map<Seq<char>, serde_json::Value>,
                >::empty());
                assert(!keys.take(i as int).contains(id@));
            }
            leaves.insert(id.clone(), nobody);
            proof {
                lemma_longer_take(keys, i as int);
            }
        }
        let leaves = PresenceState(leaves);
        proof {
            assert(keys.take(ids as int) =~= keys);
            assert(leaves.model() =~= emptied(start));
            assert(without(start, keys) =~= PresenceModel::empty());
        }
        let mut calls = self.sync_diff(PresenceDiff { joins: new_state, leaves });
        proof {
            assert(self.state.model() =~= new_state.model());
        }
        push_calls_for_all(&mut calls, &sync_callbacks, &self.state, &prev_state, &self.state);
        calls
    }
}

proof fn lemma_filter_all<A>(s: Seq<A>, p: spec_fn(A) -> bool)
    requires
        forall|a: A| #[trigger] p(a),
    ensures
        s.filter(p) == s,
    decreases s.len(),
{
    reveal(Seq::filter);
    if s.len() > 0 {
        lemma_filter_all(s.drop_last(), p);
        assert(p(s.last()));
        assert(s.filter(p) =~= s);
    } else {
        assert(s.filter(p) =~= s);
    }
}

/// After a change an id is present if it joined, or was present before and did
/// not leave. Who joined has what the change brought, everyone else what they
/// had.
pub proof fn change_decides_who_is_present<P>(
    before: RealtimePresence<P>,
    after: RealtimePresence<P>,
    joins: PresenceModel,
    joined: Seq<Seq<char>>,
    leaves: PresenceModel,
    left: Seq<Seq<char>>,
    calls: Seq<PresenceCall>,
    id: Seq<char>,
)
    requires
        RealtimePresence::took_diff(before, after, joins, joined, leaves, left, calls),
    ensures
        after.state.model().contains_key(id) <==> joins.contains_key(id)
            || before.state.model().contains_key(id) && !left.contains(id),
        joins.contains_key(id) ==> after.state.model()[id] == joins[id],
        after.state.model().contains_key(id) && !joins.contains_key(id)
            ==> after.state.model()[id] == before.state.model()[id],
{
    assert(left.to_set().contains(id) == left.contains(id));
}

/// A change in which nobody joins and nobody leaves changes nothing, and no
/// callback hears of it.
pub proof fn empty_change_changes_nothing<P>(
    before: RealtimePresence<P>,
    after: RealtimePresence<P>,
    calls: Seq<PresenceCall>,
)
    requires
        RealtimePresence::took_diff(
            before,
            after,
            PresenceModel::empty(),
            Seq::empty(),
            PresenceModel::empty(),
            Seq::empty(),
            calls,
        ),
    ensures
        after.state.model() == before.state.model(),
        after.callbacks == before.callbacks,
        calls.len() == 0,
{
    assert(after.state.model() =~= before.state.model());
    assert(calls_model(calls).len() == calls.len());
}

/// Who was not present, joins and then leaves has changed nothing.
pub proof fn leaving_undoes_joining<P>(
    before: RealtimePresence<P>,
    between: RealtimePresence<P>,
    after: RealtimePresence<P>,
    joins: PresenceModel,
    joined: Seq<Seq<char>>,
    leaves: PresenceModel,
    first: Seq<PresenceCall>,
    second: Seq<PresenceCall>,
)
    requires
        forall|id: Seq<char>| joined.contains(id) <==> #[trigger] joins.contains_key(id),
        forall|id: Seq<char>| #[trigger]
            joins.contains_key(id) ==> !before.state.model().contains_key(id),
        RealtimePresence::took_diff(
            before,
            between,
            joins,
            joined,
            PresenceModel::empty(),
            Seq::empty(),
            first,
        ),
        RealtimePresence::took_diff(
            between,
            after,
            PresenceModel::empty(),
            Seq::empty(),
            leaves,
            joined,
            second,
        ),
    ensures
        after.state.model() == before.state.model(),
{
    assert forall|id: Seq<char>| joined.to_set().contains(id) == joins.contains_key(id) by {}
    assert(after.state.model() =~= before.state.model());
}

/// Every join callback hears of every id that joins, with the state before the
/// change and all that joins.
pub proof fn every_join_is_heard<P>(
    before: RealtimePresence<P>,
    after: RealtimePresence<P>,
    joins: PresenceModel,
    joined: Seq<Seq<char>>,
    leaves: PresenceModel,
    left: Seq<Seq<char>>,
    calls: Seq<PresenceCall>,
    place: int,
    id: Seq<char>,
)
    requires
        RealtimePresence::took_diff(before, after, joins, joined, leaves, left, calls),
        0 <= place < before.callbacks@.len(),
        before.callbacks@[place].0 == PresenceEvent::Join,
        joined.contains(id),
    ensures
        calls_model(calls).contains(
            PresenceCallModel {
                callback: place,
                id,
                old_state: before.state.model(),
                new_state: joins,
            },
        ),
{
    let old_state = before.state.model();
    let callbacks = before.callbacks_for(PresenceEvent::Join);
    chosen_places(before.callbacks@.len() as int, before.hears(PresenceEvent::Join), place);
    lemma_call_for_each(callbacks, joined, old_state, joins, place, id);
    let due = calls_for_all(callbacks, joined, old_state, joins);
    let call = PresenceCallModel { callback: place, id, old_state, new_state: joins };
    assert(calls_model(calls)[due.index_of(call)] == call);
}

/// Every leave callback hears of every id that leaves, with the state that the
/// ids before it have already left.
pub proof fn every_leave_is_heard<P>(
    before: RealtimePresence<P>,
    after: RealtimePresence<P>,
    joins: PresenceModel,
    joined: Seq<Seq<char>>,
    leaves: PresenceModel,
    left: Seq<Seq<char>>,
    calls: Seq<PresenceCall>,
    place: int,
    turn: int,
)
    requires
        RealtimePresence::took_diff(before, after, joins, joined, leaves, left, calls),
        0 <= place < before.callbacks@.len(),
        before.callbacks@[place].0 == PresenceEvent::Leave,
        0 <= turn < left.len(),
    ensures
        calls_model(calls).contains(
            PresenceCallModel {
                callback: place,
                id: left[turn],
                old_state: without(before.state.model(), left.take(turn)),
                new_state: leaves,
            },
        ),
{
    let state = before.state.model();
    let callbacks = before.callbacks_for(PresenceEvent::Leave);
    chosen_places(before.callbacks@.len() as int, before.hears(PresenceEvent::Leave), place);
    lemma_call_for_each_leave(callbacks, left, state, leaves, place, turn);
    let first = calls_for_all(
        before.callbacks_for(PresenceEvent::Join),
        joined,
        state,
        joins,
    );
    let due = leave_calls(callbacks, left, state, leaves);
    let call = PresenceCallModel {
        callback: place,
        id: left[turn],
        old_state: without(state, left.take(turn)),
        new_state: leaves,
    };
    assert(calls_model(calls)[first.len() + due.index_of(call)] == call);
}

/// Every sync callback hears of every id of a whole new state, with the state
/// before and the new one.
pub proof fn every_sync_is_heard<P>(
    before: RealtimePresence<P>,
    after: RealtimePresence<P>,
    state: PresenceModel,
    ids: Seq<Seq<char>>,
    calls: Seq<PresenceCall>,
    place: int,
    id: Seq<char>,
)
    requires
        RealtimePresence::took_state(before, after, state, ids, calls),
        0 <= place < before.callbacks@.len(),
        before.callbacks@[place].0 == PresenceEvent::Sync,
        ids.contains(id),
    ensures
        calls_model(calls).contains(
            PresenceCallModel {
                callback: place,
                id,
                old_state: before.state.model(),
                new_state: state,
            },
        ),
{
    let old_state = before.state.model();
    let callbacks = before.callbacks_for(PresenceEvent::Sync);
    chosen_places(before.callbacks@.len() as int, before.hears(PresenceEvent::Sync), place);
    lemma_call_for_each(callbacks, ids, old_state, state, place, id);
    let due = calls_for_all(callbacks, ids, old_state, state);
    let call = PresenceCallModel { callback: place, id, old_state, new_state: state };
    let all = calls_model(calls);
    assert(all[all.len() - due.len() + due.index_of(call)] == call);
}

pub(crate) proof fn lemma_call_for_each_leave(
    callbacks: Seq<int>,
    ids: Seq<Seq<char>>,
    state: PresenceModel,
    leaves: PresenceModel,
    callback: int,
    turn: int,
)
    requires
        callbacks.contains(callback),
        0 <= turn < ids.len(),
    ensures
        leave_calls(callbacks, ids, state, leaves).contains(
            PresenceCallModel {
                callback,
                id: ids[turn],
                old_state: without(state, ids.take(turn)),
                new_state: leaves,
            },
        ),
    decreases ids.len(),
{
    let call = PresenceCallModel {
        callback,
        id: ids[turn],
        old_state: without(state, ids.take(turn)),
        new_state: leaves,
    };
    let front = leave_calls(callbacks, ids.drop_last(), state, leaves);
    let last = calls_for(callbacks, ids.last(), without(state, ids.drop_last()), leaves);
    if turn == ids.len() - 1 {
        assert(ids.take(turn) =~= ids.drop_last());
        let at = callbacks.index_of(callback);
        assert(last[at] == call);
        assert((front + last)[front.len() + at] == call);
    } else {
        assert(ids.drop_last().take(turn) =~= ids.take(turn));
        lemma_call_for_each_leave(callbacks, ids.drop_last(), state, leaves, callback, turn);
        assert((front + last)[front.index_of(call)] == call);
    }
}

pub(crate) proof fn lemma_call_for_each(
    callbacks: Seq<int>,
    ids: Seq<Seq<char>>,
    old_state: PresenceModel,
    new_state: PresenceModel,
    callback: int,
    id: Seq<char>,
)
    requires
        callbacks.contains(callback),
        ids.contains(id),
    ensures
        calls_for_all(callbacks, ids, old_state, new_state).contains(
            PresenceCallModel { callback, id, old_state, new_state },
        ),
    decreases ids.len(),
{
    let call = PresenceCallModel { callback, id, old_state, new_state };
    let front = calls_for_all(callbacks, ids.drop_last(), old_state, new_state);
    let last = calls_for(callbacks, ids.last(), old_state, new_state);
    if ids.last() == id {
        let at = callbacks.index_of(callback);
        assert(last[at] == call);
        assert((front + last)[front.len() + at] == call);
    } else {
        assert(ids.drop_last()[ids.index_of(id)] == id);
        lemma_call_for_each(callbacks, ids.drop_last(), old_state, new_state, callback, id);
        assert((front + last)[front.index_of(call)] == call);
    }
}

} // verus!
