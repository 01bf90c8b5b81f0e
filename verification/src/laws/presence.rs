//! Who is present, and who hears of it.
use vstd::prelude::*;

use crate::laws::{increasing, lemma_places_increase};
use crate::message::presence::{
    collected, metas_model, present, raw_model, PhxMap, PresenceDiff, PresenceEvent, PresenceModel,
    PresenceState, RawPresenceDiff, RawPresenceMeta, RawPresenceState,
};
use crate::places::chosen_places;
use crate::realtime_presence::{
    calls_for, calls_for_all, calls_model, emptied, every_join_is_heard, every_leave_is_heard,
    every_sync_is_heard, leave_calls, lemma_call_for_each, lemma_call_for_each_leave, without,
    PresenceCall, PresenceCallModel, RealtimePresence,
};
use crate::string_map::Deep;

verus! {

/// Whether two sets of references are the same: the same references, each with
/// the same data.
pub open spec fn same_refs(a: PhxMap, b: PhxMap) -> bool {
    forall|phx_ref: Seq<char>|
        {
            &&& #[trigger] a@.contains_key(phx_ref) <==> b@.contains_key(phx_ref)
            &&& a@.contains_key(phx_ref) ==> a@[phx_ref]@ == b@[phx_ref]@
        }
}

/// Whether the same ids are present in two states, each with the same
/// references.
pub open spec fn same_state(a: PresenceState, b: PresenceState) -> bool {
    forall|id: Seq<char>|
        {
            &&& #[trigger] a.0@.contains_key(id) <==> b.0@.contains_key(id)
            &&& a.0@.contains_key(id) ==> same_refs(a.0@[id], b.0@[id])
        }
}

pub(crate) proof fn lemma_same_refs(a: PhxMap, b: PhxMap)
    requires
        a.model() == b.model(),
    ensures
        same_refs(a, b),
{
    assert forall|phx_ref: Seq<char>|
        {
            &&& #[trigger] a@.contains_key(phx_ref) <==> b@.contains_key(phx_ref)
            &&& a@.contains_key(phx_ref) ==> a@[phx_ref]@ == b@[phx_ref]@
        } by {
        assert(a.model().contains_key(phx_ref) == a@.contains_key(phx_ref));
        assert(b.model().contains_key(phx_ref) == b@.contains_key(phx_ref));
        if a@.contains_key(phx_ref) {
            assert(a.model()[phx_ref] == a@[phx_ref].model());
            assert(b.model()[phx_ref] == b@[phx_ref].model());
            assert(a@[phx_ref].model() =~= a@[phx_ref]@);
            assert(b@[phx_ref].model() =~= b@[phx_ref]@);
        }
    }
}

pub(crate) proof fn lemma_model_of(state: PresenceState, id: Seq<char>)
    ensures
        state.model().contains_key(id) == state.0@.contains_key(id),
        state.0@.contains_key(id) ==> state.model()[id] == state.0@[id].model(),
{
}

pub(crate) proof fn lemma_same_state(a: PresenceState, b: PresenceState)
    requires
        a.model() == b.model(),
    ensures
        same_state(a, b),
{
    assert forall|id: Seq<char>|
        {
            &&& #[trigger] a.0@.contains_key(id) <==> b.0@.contains_key(id)
            &&& a.0@.contains_key(id) ==> same_refs(a.0@[id], b.0@[id])
        } by {
        lemma_model_of(a, id);
        lemma_model_of(b, id);
        if a.0@.contains_key(id) {
            lemma_same_refs(a.0@[id], b.0@[id]);
        }
    }
}

/// After a whole state is taken in, an id is present if and only if it is in
/// that state, and then with the references that it has there.
pub proof fn whole_state_replaces<P>(
    presence: &mut RealtimePresence<P>,
    sent: PresenceState,
    calls: Vec<PresenceCall>,
    id: Seq<char>,
)
    requires
        call_ensures(RealtimePresence::<P>::sync, (presence, sent), calls),
    ensures
        final(presence).state.0@.contains_key(id) <==> sent.0@.contains_key(id),
        sent.0@.contains_key(id) ==> same_refs(final(presence).state.0@[id], sent.0@[id]),
        final(presence).callbacks == old(presence).callbacks,
{
    lemma_same_state(final(presence).state, sent);
    assert(final(presence).state.0@.contains_key(id) <==> sent.0@.contains_key(id));
}

/// After a change an id is present if and only if it joined, or was present and
/// did not leave. Who joined has the references that the change brought, and
/// everyone else those that they had.
pub proof fn change_is_taken_in<P>(
    presence: &mut RealtimePresence<P>,
    diff: PresenceDiff,
    calls: Vec<PresenceCall>,
    id: Seq<char>,
)
    requires
        call_ensures(RealtimePresence::<P>::sync_diff, (presence, diff), calls),
    ensures
        final(presence).state.0@.contains_key(id) <==> diff.joins.0@.contains_key(id) || old(
            presence,
        ).state.0@.contains_key(id) && !diff.leaves.0@.contains_key(id),
        diff.joins.0@.contains_key(id) ==> same_refs(
            final(presence).state.0@[id],
            diff.joins.0@[id],
        ),
        final(presence).state.0@.contains_key(id) && !diff.joins.0@.contains_key(id) ==> same_refs(
            final(presence).state.0@[id],
            old(presence).state.0@[id],
        ),
        final(presence).callbacks == old(presence).callbacks,
{
    let before = old(presence).state;
    let after = final(presence).state;
    lemma_model_of(before, id);
    lemma_model_of(after, id);
    lemma_model_of(diff.joins, id);
    let left = diff.leaves.0.keys();
    assert(left.to_set().contains(id) == left.contains(id));
    if diff.joins.0@.contains_key(id) {
        lemma_same_refs(after.0@[id], diff.joins.0@[id]);
    } else if after.0@.contains_key(id) {
        lemma_same_refs(after.0@[id], before.0@[id]);
    }
}

/// Whether `state` is what `before` is without some ids.
pub open spec fn is_without(
    state: PresenceState,
    before: PresenceState,
    gone: Seq<Seq<char>>,
) -> bool {
    forall|id: Seq<char>|
        {
            &&& #[trigger] state.0@.contains_key(id) <==> before.0@.contains_key(id)
                && !gone.contains(id)
            &&& state.0@.contains_key(id) ==> same_refs(state.0@[id], before.0@[id])
        }
}

/// The place of an event in the order in which callbacks hear of a change.
pub open spec fn hearing_order(event: PresenceEvent) -> int {
    match event {
        PresenceEvent::Join => 1,
        PresenceEvent::Leave => 2,
        PresenceEvent::Sync => 3,
        _ => 0,
    }
}

proof fn lemma_in_turn(
    callbacks: Seq<int>,
    ids: Seq<Seq<char>>,
    old_state: PresenceModel,
    new_state: PresenceModel,
)
    requires
        increasing(callbacks),
        ids.no_duplicates(),
    ensures
        forall|i: int|
            0 <= i < calls_for_all(callbacks, ids, old_state, new_state).len() ==> {
                let call = #[trigger] calls_for_all(callbacks, ids, old_state, new_state)[i];
                &&& callbacks.contains(call.callback)
                &&& ids.contains(call.id)
                &&& call.old_state == old_state
                &&& call.new_state == new_state
            },
        in_turn(calls_for_all(callbacks, ids, old_state, new_state), ids),
    decreases ids.len(),
{
    if ids.len() > 0 {
        let front = ids.drop_last();
        let earlier = calls_for_all(callbacks, front, old_state, new_state);
        let last = calls_for(callbacks, ids.last(), old_state, new_state);
        lemma_in_turn(callbacks, front, old_state, new_state);
        assert(calls_for_all(callbacks, ids, old_state, new_state) == earlier + last);
        lemma_next_turn(callbacks, ids, earlier, last);
        assert forall|i: int| 0 <= i < (earlier + last).len() implies {
            let call = #[trigger] (earlier + last)[i];
            &&& callbacks.contains(call.callback)
            &&& ids.contains(call.id)
            &&& call.old_state == old_state
            &&& call.new_state == new_state
        } by {
            if i < earlier.len() {
                assert((earlier + last)[i] == earlier[i]);
                let id = earlier[i].id;
                assert(ids[front.index_of(id)] == id);
            } else {
                assert((earlier + last)[i] == last[i - earlier.len()]);
                assert(last[i - earlier.len()].callback == callbacks[i - earlier.len()]);
                assert(ids[ids.len() - 1] == ids.last());
            }
        }
    }
}

/// Whether calls are made for one id after the other, and for each id in the
/// order of the callbacks.
pub open spec fn in_turn(calls: Seq<PresenceCallModel>, ids: Seq<Seq<char>>) -> bool {
    forall|i: int, j: int|
        0 <= i < j < calls.len() ==> {
            let first = #[trigger] calls[i];
            let second = #[trigger] calls[j];
            ||| ids.index_of(first.id) < ids.index_of(second.id)
            ||| first.id == second.id && first.callback < second.callback
        }
}

proof fn lemma_next_turn(
    callbacks: Seq<int>,
    ids: Seq<Seq<char>>,
    earlier: Seq<PresenceCallModel>,
    last: Seq<PresenceCallModel>,
)
    requires
        increasing(callbacks),
        ids.no_duplicates(),
        ids.len() > 0,
        in_turn(earlier, ids.drop_last()),
        forall|i: int|
            0 <= i < earlier.len() ==> ids.drop_last().contains((#[trigger] earlier[i]).id),
        last.len() == callbacks.len(),
        forall|i: int|
            0 <= i < last.len() ==> (#[trigger] last[i]).id == ids.last() && last[i].callback
                == callbacks[i],
    ensures
        in_turn(earlier + last, ids),
{
    let front = ids.drop_last();
    let all = earlier + last;
    assert forall|i: int| 0 <= i < earlier.len() implies ids.index_of((#[trigger] earlier[i]).id)
        == front.index_of(earlier[i].id) && ids.index_of(earlier[i].id) < ids.len() - 1 by {
        let id = earlier[i].id;
        let at = front.index_of(id);
        assert(ids[at] == id);
        assert(ids.contains(id));
        assert(ids[ids.index_of(id)] == id);
    }
    assert(ids[ids.len() - 1] == ids.last());
    assert(ids.contains(ids.last()));
    assert(ids.index_of(ids.last()) == ids.len() - 1);
    assert forall|i: int, j: int| 0 <= i < j < all.len() implies {
        let first = #[trigger] all[i];
        let second = #[trigger] all[j];
        ||| ids.index_of(first.id) < ids.index_of(second.id)
        ||| first.id == second.id && first.callback < second.callback
    } by {
        if j < earlier.len() {
            assert(all[i] == earlier[i]);
            assert(all[j] == earlier[j]);
        } else if i < earlier.len() {
            assert(all[i] == earlier[i]);
            assert(all[j] == last[j - earlier.len()]);
        } else {
            assert(all[i] == last[i - earlier.len()]);
            assert(all[j] == last[j - earlier.len()]);
            assert(callbacks[i - earlier.len()] < callbacks[j - earlier.len()]);
        }
    }
}

proof fn lemma_leaves_in_turn(
    callbacks: Seq<int>,
    ids: Seq<Seq<char>>,
    state: PresenceModel,
    leaves: PresenceModel,
)
    requires
        increasing(callbacks),
        ids.no_duplicates(),
    ensures
        forall|i: int|
            0 <= i < leave_calls(callbacks, ids, state, leaves).len() ==> {
                let call = #[trigger] leave_calls(callbacks, ids, state, leaves)[i];
                &&& callbacks.contains(call.callback)
                &&& ids.contains(call.id)
                &&& call.old_state == without(state, ids.take(ids.index_of(call.id)))
                &&& call.new_state == leaves
            },
        in_turn(leave_calls(callbacks, ids, state, leaves), ids),
    decreases ids.len(),
{
    if ids.len() > 0 {
        let front = ids.drop_last();
        let earlier = leave_calls(callbacks, front, state, leaves);
        let last = calls_for(callbacks, ids.last(), without(state, front), leaves);
        lemma_leaves_in_turn(callbacks, front, state, leaves);
        assert(leave_calls(callbacks, ids, state, leaves) == earlier + last);
        lemma_next_turn(callbacks, ids, earlier, last);
        assert forall|i: int| 0 <= i < (earlier + last).len() implies {
            let call = #[trigger] (earlier + last)[i];
            &&& callbacks.contains(call.callback)
            &&& ids.contains(call.id)
            &&& call.old_state == without(state, ids.take(ids.index_of(call.id)))
            &&& call.new_state == leaves
        } by {
            if i < earlier.len() {
                assert((earlier + last)[i] == earlier[i]);
                let id = earlier[i].id;
                let at = front.index_of(id);
                assert(ids[at] == id);
                assert(ids[ids.index_of(id)] == id);
                assert(ids.take(at) =~= front.take(at));
            } else {
                assert((earlier + last)[i] == last[i - earlier.len()]);
                assert(last[i - earlier.len()].callback == callbacks[i - earlier.len()]);
                assert(ids[ids.len() - 1] == ids.last());
                assert(ids.contains(ids.last()));
                assert(ids[ids.index_of(ids.last())] == ids.last());
                assert(ids.take(ids.len() - 1) =~= front);
            }
        }
    }
}

/// The event that the callback of a call was registered for.
pub open spec fn heard_event<P>(
    callbacks: Seq<(PresenceEvent, P)>,
    call: PresenceCall,
) -> PresenceEvent {
    callbacks[call.callback as int].0
}

/// Whether a call comes before another one: callbacks hear first of who joined,
/// then of who left and then of the whole state; of each id in turn; and of an
/// id in the order in which they were registered.
pub open spec fn comes_before<P>(
    callbacks: Seq<(PresenceEvent, P)>,
    turns: Seq<Seq<char>>,
    first: PresenceCall,
    second: PresenceCall,
) -> bool {
    ||| hearing_order(heard_event(callbacks, first)) < hearing_order(
        heard_event(callbacks, second),
    )
    ||| turns.index_of(first.id@) < turns.index_of(second.id@)
    ||| first.id@ == second.id@ && first.callback < second.callback
}

proof fn lemma_callbacks_for<P>(presence: RealtimePresence<P>, event: PresenceEvent)
    ensures
        increasing(presence.callbacks_for(event)),
        forall|place: int| #[trigger]
            presence.callbacks_for(event).contains(place) <==> 0 <= place
                < presence.callbacks@.len() && presence.callbacks@[place].0 == event,
{
    let n = presence.callbacks@.len() as int;
    lemma_places_increase(n, presence.hears(event));
    assert forall|place: int| #[trigger]
        presence.callbacks_for(event).contains(place) <==> 0 <= place < presence.callbacks@.len()
            && presence.callbacks@[place].0 == event by {
        chosen_places(n, presence.hears(event), place);
    }
}

pub(crate) proof fn lemma_without(
    state: PresenceState,
    before: PresenceState,
    gone: Seq<Seq<char>>,
)
    requires
        state.model() == without(before.model(), gone),
    ensures
        is_without(state, before, gone),
{
    assert forall|id: Seq<char>|
        {
            &&& #[trigger] state.0@.contains_key(id) <==> before.0@.contains_key(id)
                && !gone.contains(id)
            &&& state.0@.contains_key(id) ==> same_refs(state.0@[id], before.0@[id])
        } by {
        lemma_model_of(state, id);
        lemma_model_of(before, id);
        assert(gone.to_set().contains(id) == gone.contains(id));
        if state.0@.contains_key(id) {
            lemma_same_refs(state.0@[id], before.0@[id]);
        }
    }
}

/// What a call is that a change brings about.
pub(crate) proof fn lemma_change_call<P>(
    before: RealtimePresence<P>,
    after: RealtimePresence<P>,
    joins: PresenceModel,
    joined: Seq<Seq<char>>,
    leaves: PresenceModel,
    left: Seq<Seq<char>>,
    calls: Seq<PresenceCall>,
    i: int,
)
    requires
        RealtimePresence::took_diff(before, after, joins, joined, leaves, left, calls),
        joined.no_duplicates(),
        left.no_duplicates(),
        0 <= i < calls.len(),
    ensures
        calls[i].callback < before.callbacks@.len(),
        match heard_event(before.callbacks@, calls[i]) {
            PresenceEvent::Join => {
                &&& joined.contains(calls[i].id@)
                &&& calls[i].old_state.model() == before.state.model()
                &&& calls[i].new_state.model() == joins
            },
            PresenceEvent::Leave => {
                &&& left.contains(calls[i].id@)
                &&& calls[i].old_state.model() == without(
                    before.state.model(),
                    left.take(left.index_of(calls[i].id@)),
                )
                &&& calls[i].new_state.model() == leaves
            },
            _ => false,
        },
{
    let state = before.state.model();
    let join = before.callbacks_for(PresenceEvent::Join);
    let leave = before.callbacks_for(PresenceEvent::Leave);
    lemma_callbacks_for(before, PresenceEvent::Join);
    lemma_callbacks_for(before, PresenceEvent::Leave);
    lemma_in_turn(join, joined, state, joins);
    lemma_leaves_in_turn(leave, left, state, leaves);
    let first = calls_for_all(join, joined, state, joins);
    let second = leave_calls(leave, left, state, leaves);
    assert(calls_model(calls).len() == calls.len());
    assert(calls_model(calls)[i] == calls[i].model());
    if i < first.len() {
        assert((first + second)[i] == first[i]);
    } else {
        assert((first + second)[i] == second[i - first.len()]);
    }
}

/// The order of the calls that a change brings about.
pub(crate) proof fn lemma_change_order<P>(
    before: RealtimePresence<P>,
    after: RealtimePresence<P>,
    joins: PresenceModel,
    joined: Seq<Seq<char>>,
    leaves: PresenceModel,
    left: Seq<Seq<char>>,
    calls: Seq<PresenceCall>,
    i: int,
    j: int,
)
    requires
        RealtimePresence::took_diff(before, after, joins, joined, leaves, left, calls),
        joined.no_duplicates(),
        left.no_duplicates(),
        0 <= i < j < calls.len(),
    ensures
        hearing_order(heard_event(before.callbacks@, calls[i])) <= hearing_order(
            heard_event(before.callbacks@, calls[j]),
        ),
        comes_before(
            before.callbacks@,
            if heard_event(before.callbacks@, calls[j]) == PresenceEvent::Leave {
                left
            } else {
                joined
            },
            calls[i],
            calls[j],
        ),
{
    let state = before.state.model();
    let join = before.callbacks_for(PresenceEvent::Join);
    let leave = before.callbacks_for(PresenceEvent::Leave);
    lemma_callbacks_for(before, PresenceEvent::Join);
    lemma_callbacks_for(before, PresenceEvent::Leave);
    lemma_in_turn(join, joined, state, joins);
    lemma_leaves_in_turn(leave, left, state, leaves);
    let first = calls_for_all(join, joined, state, joins);
    let second = leave_calls(leave, left, state, leaves);
    assert(calls_model(calls).len() == calls.len());
    assert(calls_model(calls)[i] == calls[i].model());
    assert(calls_model(calls)[j] == calls[j].model());
    assert((first + second)[i] == if i < first.len() {
        first[i]
    } else {
        second[i - first.len()]
    });
    assert((first + second)[j] == if j < first.len() {
        first[j]
    } else {
        second[j - first.len()]
    });
}

/// Every call that a change brings about is due: a join callback hears of an id
/// that joined, with the state before the change and all that joined; a leave
/// callback hears of an id that left, with the state that the ids before it have
/// left and all that left. No other callback hears of a change.
pub proof fn change_calls_are_due<P>(
    presence: &mut RealtimePresence<P>,
    diff: PresenceDiff,
    calls: Vec<PresenceCall>,
    i: int,
)
    requires
        call_ensures(RealtimePresence::<P>::sync_diff, (presence, diff), calls),
        0 <= i < calls@.len(),
    ensures
        calls@[i].callback < old(presence).callbacks@.len(),
        match heard_event(old(presence).callbacks@, calls@[i]) {
            PresenceEvent::Join => {
                &&& diff.joins.0@.contains_key(calls@[i].id@)
                &&& same_state(calls@[i].old_state, old(presence).state)
                &&& same_state(calls@[i].new_state, diff.joins)
            },
            PresenceEvent::Leave => {
                let turns = diff.leaves.0.keys();
                &&& diff.leaves.0@.contains_key(calls@[i].id@)
                &&& is_without(
                    calls@[i].old_state,
                    old(presence).state,
                    turns.take(turns.index_of(calls@[i].id@)),
                )
                &&& same_state(calls@[i].new_state, diff.leaves)
            },
            _ => false,
        },
{
    let before = *old(presence);
    let call = calls@[i];
    let turns = diff.leaves.0.keys();
    lemma_change_call(
        before,
        *final(presence),
        diff.joins.model(),
        diff.joins.0.keys(),
        diff.leaves.model(),
        turns,
        calls@,
        i,
    );
    if heard_event(before.callbacks@, call) == PresenceEvent::Join {
        lemma_same_state(call.old_state, before.state);
        lemma_same_state(call.new_state, diff.joins);
    } else {
        lemma_without(call.old_state, before.state, turns.take(turns.index_of(call.id@)));
        lemma_same_state(call.new_state, diff.leaves);
    }
}

/// The calls that a change brings about come in order, so that no callback
/// hears twice of an id.
pub proof fn change_calls_come_in_order<P>(
    presence: &mut RealtimePresence<P>,
    diff: PresenceDiff,
    calls: Vec<PresenceCall>,
    i: int,
    j: int,
)
    requires
        call_ensures(RealtimePresence::<P>::sync_diff, (presence, diff), calls),
        0 <= i < j < calls@.len(),
    ensures
        hearing_order(heard_event(old(presence).callbacks@, calls@[i])) <= hearing_order(
            heard_event(old(presence).callbacks@, calls@[j]),
        ),
        comes_before(
            old(presence).callbacks@,
            if heard_event(old(presence).callbacks@, calls@[j]) == PresenceEvent::Leave {
                diff.leaves.0.keys()
            } else {
                diff.joins.0.keys()
            },
            calls@[i],
            calls@[j],
        ),
{
    lemma_change_order(
        *old(presence),
        *final(presence),
        diff.joins.model(),
        diff.joins.0.keys(),
        diff.leaves.model(),
        diff.leaves.0.keys(),
        calls@,
        i,
        j,
    );
}

/// Who hears of who joined.
pub(crate) proof fn lemma_told_joined<P>(
    before: RealtimePresence<P>,
    after: RealtimePresence<P>,
    joins: PresenceModel,
    joined: Seq<Seq<char>>,
    leaves: PresenceModel,
    left: Seq<Seq<char>>,
    calls: Seq<PresenceCall>,
    place: int,
    id: Seq<char>,
)
    requires
        RealtimePresence::took_diff(before, after, joins, joined, leaves, left, calls),
        0 <= place < before.callbacks@.len(),
        before.callbacks@[place].0 == PresenceEvent::Join,
        joined.contains(id),
    ensures
        exists|i: int|
            0 <= i < calls.len() && (#[trigger] calls[i]).callback == place && calls[i].id@ == id,
{
    every_join_is_heard(before, after, joins, joined, leaves, left, calls, place, id);
    lemma_call_is_there(
        calls,
        PresenceCallModel {
            callback: place,
            id,
            old_state: before.state.model(),
            new_state: joins,
        },
    );
}

/// Who hears of who left.
pub(crate) proof fn lemma_told_left<P>(
    before: RealtimePresence<P>,
    after: RealtimePresence<P>,
    joins: PresenceModel,
    joined: Seq<Seq<char>>,
    leaves: PresenceModel,
    left: Seq<Seq<char>>,
    calls: Seq<PresenceCall>,
    place: int,
    id: Seq<char>,
)
    requires
        RealtimePresence::took_diff(before, after, joins, joined, leaves, left, calls),
        0 <= place < before.callbacks@.len(),
        before.callbacks@[place].0 == PresenceEvent::Leave,
        left.contains(id),
    ensures
        exists|i: int|
            0 <= i < calls.len() && (#[trigger] calls[i]).callback == place && calls[i].id@ == id,
{
    let turn = left.index_of(id);
    every_leave_is_heard(before, after, joins, joined, leaves, left, calls, place, turn);
    lemma_call_is_there(
        calls,
        PresenceCallModel {
            callback: place,
            id: left[turn],
            old_state: without(before.state.model(), left.take(turn)),
            new_state: leaves,
        },
    );
}

/// Every join callback hears of every id that joined.
pub proof fn change_tells_who_joined<P>(
    presence: &mut RealtimePresence<P>,
    diff: PresenceDiff,
    calls: Vec<PresenceCall>,
    place: int,
    id: Seq<char>,
)
    requires
        call_ensures(RealtimePresence::<P>::sync_diff, (presence, diff), calls),
        0 <= place < old(presence).callbacks@.len(),
        old(presence).callbacks@[place].0 == PresenceEvent::Join,
        diff.joins.0@.contains_key(id),
    ensures
        exists|i: int|
            0 <= i < calls@.len() && (#[trigger] calls@[i]).callback == place && calls@[i].id@
                == id,
{
    lemma_told_joined(
        *old(presence),
        *final(presence),
        diff.joins.model(),
        diff.joins.0.keys(),
        diff.leaves.model(),
        diff.leaves.0.keys(),
        calls@,
        place,
        id,
    );
}

/// Every leave callback hears of every id that left.
pub proof fn change_tells_who_left<P>(
    presence: &mut RealtimePresence<P>,
    diff: PresenceDiff,
    calls: Vec<PresenceCall>,
    place: int,
    id: Seq<char>,
)
    requires
        call_ensures(RealtimePresence::<P>::sync_diff, (presence, diff), calls),
        0 <= place < old(presence).callbacks@.len(),
        old(presence).callbacks@[place].0 == PresenceEvent::Leave,
        diff.leaves.0@.contains_key(id),
    ensures
        exists|i: int|
            0 <= i < calls@.len() && (#[trigger] calls@[i]).callback == place && calls@[i].id@
                == id,
{
    lemma_told_left(
        *old(presence),
        *final(presence),
        diff.joins.model(),
        diff.joins.0.keys(),
        diff.leaves.model(),
        diff.leaves.0.keys(),
        calls@,
        place,
        id,
    );
}

proof fn lemma_call_is_there(calls: Seq<PresenceCall>, call: PresenceCallModel)
    requires
        calls_model(calls).contains(call),
    ensures
        exists|i: int|
            0 <= i < calls.len() && (#[trigger] calls[i]).callback == call.callback && calls[i].id@
                == call.id,
{
    let i = calls_model(calls).index_of(call);
    assert(calls_model(calls)[i] == calls[i].model());
}

/// Whether the same ids are in two states, in the first one without any
/// reference.
pub open spec fn is_emptied(state: PresenceState, before: PresenceState) -> bool {
    forall|id: Seq<char>|
        {
            &&& #[trigger] state.0@.contains_key(id) <==> before.0@.contains_key(id)
            &&& state.0@.contains_key(id) ==> forall|phx_ref: Seq<char>|
                !#[trigger] state.0@[id]@.contains_key(phx_ref)
        }
}

pub(crate) proof fn lemma_emptied(state: PresenceState, before: PresenceState)
    requires
        state.model() == emptied(before.model()),
    ensures
        is_emptied(state, before),
{
    assert forall|id: Seq<char>|
        {
            &&& #[trigger] state.0@.contains_key(id) <==> before.0@.contains_key(id)
            &&& state.0@.contains_key(id) ==> forall|phx_ref: Seq<char>|
                !#[trigger] state.0@[id]@.contains_key(phx_ref)
        } by {
        lemma_model_of(state, id);
        lemma_model_of(before, id);
        if state.0@.contains_key(id) {
            let refs = state.0@[id];
            assert forall|phx_ref: Seq<char>| !#[trigger] refs@.contains_key(phx_ref) by {
                assert(refs.model().contains_key(phx_ref) == refs@.contains_key(phx_ref));
            }
        }
    }
}

/// What a call is that a whole state brings about.
pub(crate) proof fn lemma_state_call<P>(
    before: RealtimePresence<P>,
    after: RealtimePresence<P>,
    state: PresenceModel,
    ids: Seq<Seq<char>>,
    calls: Seq<PresenceCall>,
    i: int,
)
    requires
        RealtimePresence::took_state(before, after, state, ids, calls),
        before.state.0.ordered(),
        ids.no_duplicates(),
        0 <= i < calls.len(),
    ensures
        calls[i].callback < before.callbacks@.len(),
        match heard_event(before.callbacks@, calls[i]) {
            PresenceEvent::Join | PresenceEvent::Sync => {
                &&& ids.contains(calls[i].id@)
                &&& calls[i].old_state.model() == before.state.model()
                &&& calls[i].new_state.model() == state
            },
            PresenceEvent::Leave => {
                let gone = before.state.0.keys();
                &&& gone.contains(calls[i].id@)
                &&& calls[i].old_state.model() == without(
                    before.state.model(),
                    gone.take(gone.index_of(calls[i].id@)),
                )
                &&& calls[i].new_state.model() == emptied(before.state.model())
            },
            _ => false,
        },
{
    let was = before.state.model();
    let gone = before.state.0.keys();
    let join = before.callbacks_for(PresenceEvent::Join);
    let leave = before.callbacks_for(PresenceEvent::Leave);
    let sync = before.callbacks_for(PresenceEvent::Sync);
    lemma_callbacks_for(before, PresenceEvent::Join);
    lemma_callbacks_for(before, PresenceEvent::Leave);
    lemma_callbacks_for(before, PresenceEvent::Sync);
    lemma_in_turn(join, ids, was, state);
    lemma_leaves_in_turn(leave, gone, was, emptied(was));
    lemma_in_turn(sync, ids, was, state);
    let first = calls_for_all(join, ids, was, state);
    let second = leave_calls(leave, gone, was, emptied(was));
    let third = calls_for_all(sync, ids, was, state);
    assert(calls_model(calls).len() == calls.len());
    assert(calls_model(calls)[i] == calls[i].model());
    assert((first + second + third)[i] == if i < first.len() {
        first[i]
    } else if i < first.len() + second.len() {
        second[i - first.len()]
    } else {
        third[i - first.len() - second.len()]
    });
}

/// The order of the calls that a whole state brings about.
pub(crate) proof fn lemma_state_order<P>(
    before: RealtimePresence<P>,
    after: RealtimePresence<P>,
    state: PresenceModel,
    ids: Seq<Seq<char>>,
    calls: Seq<PresenceCall>,
    i: int,
    j: int,
)
    requires
        RealtimePresence::took_state(before, after, state, ids, calls),
        before.state.0.ordered(),
        ids.no_duplicates(),
        0 <= i < j < calls.len(),
    ensures
        hearing_order(heard_event(before.callbacks@, calls[i])) <= hearing_order(
            heard_event(before.callbacks@, calls[j]),
        ),
        comes_before(
            before.callbacks@,
            if heard_event(before.callbacks@, calls[j]) == PresenceEvent::Leave {
                before.state.0.keys()
            } else {
                ids
            },
            calls[i],
            calls[j],
        ),
{
    let was = before.state.model();
    let gone = before.state.0.keys();
    let join = before.callbacks_for(PresenceEvent::Join);
    let leave = before.callbacks_for(PresenceEvent::Leave);
    let sync = before.callbacks_for(PresenceEvent::Sync);
    lemma_callbacks_for(before, PresenceEvent::Join);
    lemma_callbacks_for(before, PresenceEvent::Leave);
    lemma_callbacks_for(before, PresenceEvent::Sync);
    lemma_in_turn(join, ids, was, state);
    lemma_leaves_in_turn(leave, gone, was, emptied(was));
    lemma_in_turn(sync, ids, was, state);
    let first = calls_for_all(join, ids, was, state);
    let second = leave_calls(leave, gone, was, emptied(was));
    let third = calls_for_all(sync, ids, was, state);
    let all = first + second + third;
    assert(calls_model(calls).len() == calls.len());
    assert(calls_model(calls)[i] == calls[i].model());
    assert(calls_model(calls)[j] == calls[j].model());
    assert(all[i] == if i < first.len() {
        first[i]
    } else if i < first.len() + second.len() {
        second[i - first.len()]
    } else {
        third[i - first.len() - second.len()]
    });
    assert(all[j] == if j < first.len() {
        first[j]
    } else if j < first.len() + second.len() {
        second[j - first.len()]
    } else {
        third[j - first.len() - second.len()]
    });
}

/// Who hears of a whole state.
pub(crate) proof fn lemma_state_tells<P>(
    before: RealtimePresence<P>,
    after: RealtimePresence<P>,
    state: PresenceModel,
    ids: Seq<Seq<char>>,
    calls: Seq<PresenceCall>,
    place: int,
    id: Seq<char>,
)
    requires
        RealtimePresence::took_state(before, after, state, ids, calls),
        0 <= place < before.callbacks@.len(),
        match before.callbacks@[place].0 {
            PresenceEvent::Join | PresenceEvent::Sync => ids.contains(id),
            PresenceEvent::Leave => before.state.0.keys().contains(id),
            _ => false,
        },
    ensures
        exists|i: int|
            0 <= i < calls.len() && (#[trigger] calls[i]).callback == place && calls[i].id@ == id,
{
    let old_state = before.state.model();
    let gone = before.state.0.keys();
    let join = before.callbacks_for(PresenceEvent::Join);
    let leave = before.callbacks_for(PresenceEvent::Leave);
    let first = calls_for_all(join, ids, old_state, state);
    let second = leave_calls(leave, gone, old_state, emptied(old_state));
    lemma_callbacks_for(before, PresenceEvent::Join);
    lemma_callbacks_for(before, PresenceEvent::Leave);
    let call = PresenceCallModel { callback: place, id, old_state, new_state: state };
    match before.callbacks@[place].0 {
        PresenceEvent::Join => {
            lemma_call_for_each(join, ids, old_state, state, place, id);
            assert(calls_model(calls)[first.index_of(call)] == call);
            lemma_call_is_there(calls, call);
        },
        PresenceEvent::Leave => {
            let turn = gone.index_of(id);
            lemma_call_for_each_leave(leave, gone, old_state, emptied(old_state), place, turn);
            let call = PresenceCallModel {
                callback: place,
                id: gone[turn],
                old_state: without(old_state, gone.take(turn)),
                new_state: emptied(old_state),
            };
            assert(calls_model(calls)[first.len() + second.index_of(call)] == call);
            lemma_call_is_there(calls, call);
        },
        _ => {
            every_sync_is_heard(
                before,
                after,
                state,
                ids,
                calls,
                place,
                id,
            );
            lemma_call_is_there(calls, call);
        },
    }
}

/// Every call that a whole state brings about is due: join callbacks hear of
/// the ids in it, leave callbacks of those that were present, without their
/// references, and sync callbacks of the ids in it again. No other callback
/// hears of a whole state.
pub proof fn whole_state_calls_are_due<P>(
    presence: &mut RealtimePresence<P>,
    sent: PresenceState,
    calls: Vec<PresenceCall>,
    i: int,
)
    requires
        call_ensures(RealtimePresence::<P>::sync, (presence, sent), calls),
        0 <= i < calls@.len(),
    ensures
        calls@[i].callback < old(presence).callbacks@.len(),
        match heard_event(old(presence).callbacks@, calls@[i]) {
            PresenceEvent::Join | PresenceEvent::Sync => {
                &&& sent.0@.contains_key(calls@[i].id@)
                &&& same_state(calls@[i].old_state, old(presence).state)
                &&& same_state(calls@[i].new_state, sent)
            },
            PresenceEvent::Leave => {
                let turns = old(presence).state.0.keys();
                &&& old(presence).state.0@.contains_key(calls@[i].id@)
                &&& is_without(
                    calls@[i].old_state,
                    old(presence).state,
                    turns.take(turns.index_of(calls@[i].id@)),
                )
                &&& is_emptied(calls@[i].new_state, old(presence).state)
            },
            _ => false,
        },
{
    let before = *old(presence);
    let call = calls@[i];
    let gone = before.state.0.keys();
    lemma_state_call(before, *final(presence), sent.model(), sent.0.keys(), calls@, i);
    if heard_event(before.callbacks@, call) == PresenceEvent::Leave {
        lemma_without(call.old_state, before.state, gone.take(gone.index_of(call.id@)));
        lemma_emptied(call.new_state, before.state);
    } else {
        lemma_same_state(call.old_state, before.state);
        lemma_same_state(call.new_state, sent);
    }
}

/// The calls that a whole state brings about come in order, so that no callback
/// hears twice of an id.
pub proof fn whole_state_calls_come_in_order<P>(
    presence: &mut RealtimePresence<P>,
    sent: PresenceState,
    calls: Vec<PresenceCall>,
    i: int,
    j: int,
)
    requires
        call_ensures(RealtimePresence::<P>::sync, (presence, sent), calls),
        0 <= i < j < calls@.len(),
    ensures
        hearing_order(heard_event(old(presence).callbacks@, calls@[i])) <= hearing_order(
            heard_event(old(presence).callbacks@, calls@[j]),
        ),
        comes_before(
            old(presence).callbacks@,
            if heard_event(old(presence).callbacks@, calls@[j]) == PresenceEvent::Leave {
                old(presence).state.0.keys()
            } else {
                sent.0.keys()
            },
            calls@[i],
            calls@[j],
        ),
{
    lemma_state_order(*old(presence), *final(presence), sent.model(), sent.0.keys(), calls@, i, j);
}

/// Every join callback and every sync callback hears of every id in a whole
/// state, and every leave callback of every id that was present.
pub proof fn whole_state_tells_everyone<P>(
    presence: &mut RealtimePresence<P>,
    sent: PresenceState,
    calls: Vec<PresenceCall>,
    place: int,
    id: Seq<char>,
)
    requires
        call_ensures(RealtimePresence::<P>::sync, (presence, sent), calls),
        0 <= place < old(presence).callbacks@.len(),
        match old(presence).callbacks@[place].0 {
            PresenceEvent::Join | PresenceEvent::Sync => sent.0@.contains_key(id),
            PresenceEvent::Leave => old(presence).state.0@.contains_key(id),
            _ => false,
        },
    ensures
        exists|i: int|
            0 <= i < calls@.len() && (#[trigger] calls@[i]).callback == place && calls@[i].id@
                == id,
{
    lemma_state_tells(
        *old(presence),
        *final(presence),
        sent.model(),
        sent.0.keys(),
        calls@,
        place,
        id,
    );
}

/// On a new channel nobody is present, and its callbacks are those that were
/// registered.
pub proof fn nobody_is_present_at_first<P>(
    callbacks: Vec<(PresenceEvent, P)>,
    presence: RealtimePresence<P>,
    id: Seq<char>,
)
    requires
        call_ensures(RealtimePresence::<P>::from_channel_builder, (callbacks,), presence),
    ensures
        !presence.state.0@.contains_key(id),
        presence.callbacks == callbacks,
{
    lemma_model_of(presence.state, id);
}

/// Whether `metas[i]` is the last of the metas with its reference.
pub open spec fn is_latest(metas: Seq<RawPresenceMeta>, i: int) -> bool {
    &&& 0 <= i < metas.len()
    &&& forall|j: int|
        i < j < metas.len() ==> (#[trigger] metas[j]).phx_ref@ != metas[i].phx_ref@
}

/// Whether references are those of the metas, each with the data of the last
/// meta that has it.
pub open spec fn refs_of(refs: PhxMap, metas: Seq<RawPresenceMeta>) -> bool {
    &&& forall|phx_ref: Seq<char>| #[trigger]
        refs@.contains_key(phx_ref) <==> exists|i: int|
            0 <= i < metas.len() && (#[trigger] metas[i]).phx_ref@ == phx_ref
    &&& forall|i: int| #[trigger]
        is_latest(metas, i) ==> refs@[metas[i].phx_ref@]@ == metas[i].state_data@
}

/// Whether the ids of a state are those that the server sent, each with the
/// references that the server sent for it.
pub open spec fn is_state_of(state: PresenceState, raw: RawPresenceState) -> bool {
    forall|id: Seq<char>|
        {
            &&& #[trigger] state.0@.contains_key(id) <==> raw@.contains_key(id)
            &&& state.0@.contains_key(id) ==> refs_of(state.0@[id], raw@[id].metas@)
        }
}

proof fn lemma_metas(metas: Seq<RawPresenceMeta>)
    ensures
        forall|phx_ref: Seq<char>| #[trigger]
            metas_model(metas).contains_key(phx_ref) <==> exists|i: int|
                0 <= i < metas.len() && (#[trigger] metas[i]).phx_ref@ == phx_ref,
        forall|i: int| #[trigger]
            is_latest(metas, i) ==> metas_model(metas)[metas[i].phx_ref@]
                == metas[i].state_data.model(),
    decreases metas.len(),
{
    if metas.len() > 0 {
        let front = metas.drop_last();
        let last = metas.len() - 1;
        lemma_metas(front);
        assert(metas.last() == metas[last]);
        assert forall|phx_ref: Seq<char>| #[trigger]
            metas_model(metas).contains_key(phx_ref) <==> exists|i: int|
                0 <= i < metas.len() && (#[trigger] metas[i]).phx_ref@ == phx_ref by {
            if metas_model(front).contains_key(phx_ref) {
                let i = choose|i: int|
                    0 <= i < front.len() && (#[trigger] front[i]).phx_ref@ == phx_ref;
                assert(metas[i].phx_ref@ == phx_ref);
            }
            if exists|i: int| 0 <= i < metas.len() && (#[trigger] metas[i]).phx_ref@ == phx_ref {
                let i = choose|i: int|
                    0 <= i < metas.len() && (#[trigger] metas[i]).phx_ref@ == phx_ref;
                if i < last {
                    assert(front[i].phx_ref@ == phx_ref);
                }
            }
        }
        assert forall|i: int| #[trigger] is_latest(metas, i) implies metas_model(
            metas,
        )[metas[i].phx_ref@] == metas[i].state_data.model() by {
            if i < last {
                assert(metas[last].phx_ref@ != metas[i].phx_ref@);
                assert(is_latest(front, i)) by {
                    assert forall|j: int| i < j < front.len() implies (#[trigger] front[j]).phx_ref@
                        != front[i].phx_ref@ by {
                        assert(metas[j] == front[j]);
                    }
                }
                assert(front[i] == metas[i]);
            }
        }
    }
}

pub(crate) proof fn lemma_refs_of(refs: PhxMap, metas: Seq<RawPresenceMeta>)
    requires
        refs.model() == metas_model(metas),
    ensures
        refs_of(refs, metas),
{
    lemma_metas(metas);
    assert forall|phx_ref: Seq<char>| #[trigger]
        refs@.contains_key(phx_ref) <==> exists|i: int|
            0 <= i < metas.len() && (#[trigger] metas[i]).phx_ref@ == phx_ref by {
        assert(refs.model().contains_key(phx_ref) == refs@.contains_key(phx_ref));
    }
    assert forall|i: int| #[trigger] is_latest(metas, i) implies refs@[metas[i].phx_ref@]@
        == metas[i].state_data@ by {
        let phx_ref = metas[i].phx_ref@;
        assert(metas_model(metas).contains_key(phx_ref));
        assert(refs.model()[phx_ref] == refs@[phx_ref].model());
        assert(refs@[phx_ref].model() =~= refs@[phx_ref]@);
        assert(metas[i].state_data.model() =~= metas[i].state_data@);
    }
}

pub(crate) proof fn lemma_raw_model(raw: RawPresenceState, id: Seq<char>)
    ensures
        raw_model(raw).contains_key(id) == raw@.contains_key(id),
        raw@.contains_key(id) ==> raw_model(raw)[id] == metas_model(raw@[id].metas@),
{
}

pub(crate) proof fn lemma_state_of(state: PresenceState, raw: RawPresenceState)
    requires
        state.model() == raw_model(raw),
    ensures
        is_state_of(state, raw),
{
    assert forall|id: Seq<char>|
        {
            &&& #[trigger] state.0@.contains_key(id) <==> raw@.contains_key(id)
            &&& state.0@.contains_key(id) ==> refs_of(state.0@[id], raw@[id].metas@)
        } by {
        lemma_model_of(state, id);
        lemma_raw_model(raw, id);
        if state.0@.contains_key(id) {
            lemma_refs_of(state.0@[id], raw@[id].metas@);
        }
    }
}

/// A state that the server sends is read with every id and every reference, and
/// with no others.
pub proof fn sent_state_is_read(raw: RawPresenceState, state: PresenceState)
    requires
        call_ensures(<PresenceState as From<RawPresenceState>>::from, (raw,), state),
    ensures
        is_state_of(state, raw),
        state.0.keys() == raw.keys(),
{
    lemma_state_of(state, raw);
}

/// A change that the server sends is read with everyone who joined and everyone
/// who left.
pub proof fn sent_change_is_read(raw: RawPresenceDiff, diff: PresenceDiff)
    requires
        call_ensures(<PresenceDiff as From<RawPresenceDiff>>::from, (raw,), diff),
    ensures
        is_state_of(diff.joins, raw.joins),
        is_state_of(diff.leaves, raw.leaves),
{
    lemma_state_of(diff.joins, raw.joins);
    lemma_state_of(diff.leaves, raw.leaves);
}

/// Whether `items[i]` is the last of the items with its id.
pub open spec fn is_last(items: Seq<(String, PhxMap)>, i: int) -> bool {
    &&& 0 <= i < items.len()
    &&& forall|j: int| i < j < items.len() ==> (#[trigger] items[j]).0@ != items[i].0@
}

/// A state that is collected from a list has the ids of the list, and for each
/// of them what stands last for it in the list.
pub proof fn collected_state_has_the_last(
    items: Vec<(String, PhxMap)>,
    state: PresenceState,
    id: Seq<char>,
    i: int,
)
    requires
        call_ensures(PresenceState::from_iter, (items,), state),
    ensures
        state.0@.contains_key(id) <==> exists|j: int|
            0 <= j < items@.len() && (#[trigger] items@[j]).0@ == id,
        is_last(items@, i) ==> state.0@.contains_key(items@[i].0@) && same_refs(
            state.0@[items@[i].0@],
            items@[i].1,
        ),
{
    lemma_collected(items@);
    lemma_model_of(state, id);
    if is_last(items@, i) {
        lemma_model_of(state, items@[i].0@);
        assert(collected(items@).contains_key(items@[i].0@));
        lemma_same_refs(state.0@[items@[i].0@], items@[i].1);
    }
}

proof fn lemma_collected(items: Seq<(String, PhxMap)>)
    ensures
        forall|id: Seq<char>| #[trigger]
            collected(items).contains_key(id) <==> exists|i: int|
                0 <= i < items.len() && (#[trigger] items[i]).0@ == id,
        forall|i: int| #[trigger]
            is_last(items, i) ==> collected(items)[items[i].0@] == items[i].1.model(),
    decreases items.len(),
{
    if items.len() > 0 {
        let front = items.drop_last();
        let last = items.len() - 1;
        lemma_collected(front);
        assert(items.last() == items[last]);
        assert forall|id: Seq<char>| #[trigger]
            collected(items).contains_key(id) <==> exists|i: int|
                0 <= i < items.len() && (#[trigger] items[i]).0@ == id by {
            if collected(front).contains_key(id) {
                let i = choose|i: int| 0 <= i < front.len() && (#[trigger] front[i]).0@ == id;
                assert(items[i].0@ == id);
            }
            if exists|i: int| 0 <= i < items.len() && (#[trigger] items[i]).0@ == id {
                let i = choose|i: int| 0 <= i < items.len() && (#[trigger] items[i]).0@ == id;
                if i < last {
                    assert(front[i].0@ == id);
                }
            }
        }
        assert forall|i: int| #[trigger] is_last(items, i) implies collected(items)[items[i].0@]
            == items[i].1.model() by {
            if i < last {
                assert(items[last].0@ != items[i].0@);
                assert(is_last(front, i)) by {
                    assert forall|j: int| i < j < front.len() implies (#[trigger] front[j]).0@
                        != front[i].0@ by {
                        assert(items[j] == front[j]);
                    }
                }
                assert(front[i] == items[i]);
            }
        }
    }
}

/// The flattened map of a state has a reference if and only if some id has it,
/// and for each reference what an id has for it.
pub proof fn flattened_state_has_every_reference(
    state: PresenceState,
    flat: PhxMap,
    phx_ref: Seq<char>,
)
    requires
        call_ensures(PresenceState::get_phx_map, (&state,), flat),
    ensures
        flat@.contains_key(phx_ref) <==> exists|id: Seq<char>| #[trigger]
            state.0@.contains_key(id) && state.0@[id]@.contains_key(phx_ref),
        flat@.contains_key(phx_ref) ==> exists|id: Seq<char>| #[trigger]
            state.0@.contains_key(id) && state.0@[id]@.contains_key(phx_ref)
                && state.0@[id]@[phx_ref]@ == flat@[phx_ref]@,
{
    assert(flat.model().contains_key(phx_ref) == flat@.contains_key(phx_ref));
    if flat@.contains_key(phx_ref) {
        let data = flat.model()[phx_ref];
        assert(present(state.model(), phx_ref, data));
        let id = choose|id: Seq<char>| #[trigger]
            state.model().contains_key(id) && state.model()[id].contains_key(phx_ref)
                && state.model()[id][phx_ref] == data;
        lemma_model_of(state, id);
        let refs = state.0@[id];
        assert(refs.model().contains_key(phx_ref) == refs@.contains_key(phx_ref));
        assert(refs.model()[phx_ref] == refs@[phx_ref].model());
        assert(refs@[phx_ref].model() =~= refs@[phx_ref]@);
        assert(flat.model()[phx_ref] == flat@[phx_ref].model());
        assert(flat@[phx_ref].model() =~= flat@[phx_ref]@);
    }
    if exists|id: Seq<char>| #[trigger]
        state.0@.contains_key(id) && state.0@[id]@.contains_key(phx_ref) {
        let id = choose|id: Seq<char>| #[trigger]
            state.0@.contains_key(id) && state.0@[id]@.contains_key(phx_ref);
        lemma_model_of(state, id);
        let refs = state.0@[id];
        assert(refs.model().contains_key(phx_ref) == refs@.contains_key(phx_ref));
        assert(state.model()[id].contains_key(phx_ref));
    }
}

/// A copy of a state is the same state.
pub proof fn copied_state_is_the_same(state: PresenceState, copy: PresenceState)
    requires
        call_ensures(<PresenceState as Deep>::duplicate, (&state,), copy),
    ensures
        same_state(copy, state),
{
    lemma_same_state(copy, state);
}

/// In the default state nobody is present.
pub proof fn default_state_is_empty(state: PresenceState, id: Seq<char>)
    requires
        call_ensures(<PresenceState as Default>::default, (), state),
    ensures
        !state.0@.contains_key(id),
{
    lemma_model_of(state, id);
}

} // verus!
