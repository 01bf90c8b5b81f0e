use serde_json::Value;
use vstd::prelude::*;

use crate::places::lemma_longer_take;
use crate::string_map::{Deep, StringMap};

verus! {

/// Enum of presence event types
#[derive(Debug, Clone, Copy, PartialEq, Eq, Hash, Structural)]
pub enum PresenceEvent {
    Track,
    Untrack,
    Join,
    Leave,
    Sync,
}

pub type RawPresenceState = StringMap<RawPresenceMetas>;

pub type PresenceStateInner = StringMap<PhxMap>;

pub type PhxMap = StringMap<StateData>;

pub type StateData = StringMap<Value>;

/// The model of a [`PhxMap`]: what each presence reference carries.
pub type PhxModel = Map<Seq<char>, Map<Seq<char>, Value>>;

/// The model of a [`PresenceState`]: the references of each id.
pub type PresenceModel = Map<Seq<char>, PhxModel>;

/// PresenceState triple nested map.
///
/// Layout:
/// StringMap<id, StringMap<phx_ref, StringMap<key, value>>>
/// { \[id\]: { \[ref\]: { \[key\]: value } } }
#[derive(Debug, Clone)]
pub struct PresenceState(pub PresenceStateInner);

impl Deep for PresenceState {
    type Model = PresenceModel;

    open spec fn model(&self) -> PresenceModel {
        self.0.model()
    }

    fn duplicate(&self) -> (copy: Self) {
        PresenceState(self.0.copy())
    }
}

impl Default for PresenceState {
    fn default() -> (state: Self)
        ensures
            state.model() == PresenceModel::empty(),
            state.0.keys() == Seq::<Seq<char>>::empty(),
    {
        let state = PresenceState(StringMap::new());
        assert(state.model() =~= PresenceModel::empty());
        state
    }
}

/// Whether some id of `state` holds the reference `phx_ref` with `data`.
pub open spec fn present(state: PresenceModel, phx_ref: Seq<char>, data: Map<Seq<char>, Value>) -> bool {
    exists|id: Seq<char>| #[trigger]
        state.contains_key(id) && state[id].contains_key(phx_ref) && state[id][phx_ref] == data
}

/// Whether `flat` holds exactly the references of `state`, each with what some
/// id has for it.
pub open spec fn flattens(state: PresenceModel, flat: PhxModel) -> bool {
    &&& forall|phx_ref: Seq<char>| #[trigger]
        flat.contains_key(phx_ref) ==> present(state, phx_ref, flat[phx_ref])
    &&& forall|id: Seq<char>, phx_ref: Seq<char>|
        state.contains_key(id) && #[trigger] state[id].contains_key(phx_ref) ==> flat.contains_key(
            phx_ref,
        )
}

/// Where no reference stands under two ids, the flattened map has for each
/// reference exactly what its id has.
pub proof fn flattening_keeps_every_reference(
    state: PresenceModel,
    flat: PhxModel,
    id: Seq<char>,
    phx_ref: Seq<char>,
)
    requires
        flattens(state, flat),
        state.contains_key(id),
        state[id].contains_key(phx_ref),
        forall|other: Seq<char>|
            state.contains_key(other) && #[trigger] state[other].contains_key(phx_ref) ==> other == id,
    ensures
        flat.contains_key(phx_ref),
        flat[phx_ref] == state[id][phx_ref],
{
    assert(flat.contains_key(phx_ref));
    let holder = choose|holder: Seq<char>| #[trigger]
        state.contains_key(holder) && state[holder].contains_key(phx_ref) && state[holder][phx_ref]
            == flat[phx_ref];
    assert(state[holder].contains_key(phx_ref));
}

impl PresenceState {
    /// Returns a once flattened map of presence data:
    /// StringMap<phx_ref, <key, value>>
    ///
    /// Of a reference that stands under several ids one of them is taken.
    pub fn get_phx_map(&self) -> (flat: PhxMap)
        ensures
            flattens(self.model(), flat.model()),
    {
        let mut flat: PhxMap = StringMap::new();
        let ids: usize = self.0.len();
        for i in 0..ids
            invariant
                ids == self.0.keys().len(),
                self.0.ordered(),
                forall|phx_ref: Seq<char>| #[trigger]
                    flat.model().contains_key(phx_ref) ==> present(
                        self.model(),
                        phx_ref,
                        flat.model()[phx_ref],
                    ),
                forall|done: int, phx_ref: Seq<char>|
                    0 <= done < i && #[trigger] self.model()[self.0.keys()[done]].contains_key(phx_ref)
                        ==> flat.model().contains_key(phx_ref),
        {
            let phx_map = self.0.value_at(i);
            let ghost id = self.0.keys()[i as int];
            assert(self.model().contains_key(id) && self.model()[id] == phx_map.model());
            let refs: usize = phx_map.len();
            for j in 0..refs
                invariant
                    i < ids,
                    ids == self.0.keys().len(),
                    id == self.0.keys()[i as int],
                    refs == phx_map.keys().len(),
                    phx_map.ordered(),
                    self.model().contains_key(id),
                    self.model()[id] == phx_map.model(),
                    forall|phx_ref: Seq<char>| #[trigger]
                        flat.model().contains_key(phx_ref) ==> present(
                            self.model(),
                            phx_ref,
                            flat.model()[phx_ref],
                        ),
                    forall|done: int, phx_ref: Seq<char>|
                        0 <= done < i && #[trigger] self.model()[self.0.keys()[done]].contains_key(
                            phx_ref,
                        ) ==> flat.model().contains_key(phx_ref),
                    forall|done: int|
                        0 <= done < j ==> flat.model().contains_key(#[trigger] phx_map.keys()[done]),
            {
                let ghost before = flat.model();
                let phx_ref = phx_map.key_at(j);
                let state_data = phx_map.value_at(j);
                let copy = state_data.copy();
                let ghost data = copy.model();
                flat.insert(phx_ref.clone(), copy);
                proof {
                    assert(phx_map.model()[phx_ref@] == data);
                    assert(flat.model() =~= before.insert(phx_ref@, data));
                    assert(present(self.model(), phx_ref@, data));
                }
            }
            proof {
                assert forall|done: int, phx_ref: Seq<char>|
                    0 <= done < i + 1 && #[trigger] self.model()[self.0.keys()[done]].contains_key(
                        phx_ref,
                    ) implies flat.model().contains_key(phx_ref) by {
                    if done == i {
                        assert(phx_map.keys().contains(phx_ref));
                        let at = phx_map.keys().index_of(phx_ref);
                        assert(phx_map.keys()[at] == phx_ref);
                    }
                }
            }
        }
        proof {
            assert forall|id: Seq<char>, phx_ref: Seq<char>|
                self.model().contains_key(id) && #[trigger] self.model()[id].contains_key(
                    phx_ref,
                ) implies flat.model().contains_key(phx_ref) by {
                assert(self.0.keys().contains(id));
                let at = self.0.keys().index_of(id);
                assert(self.model()[self.0.keys()[at]].contains_key(phx_ref));
            }
        }
        flat
    }
}

type PresenceIteratorItem = (String, PhxMap);

/// What a list of ids with their references stands for: where an id occurs
/// twice, the later one counts.
pub open spec fn collected(items: Seq<(String, PhxMap)>) -> PresenceModel
    decreases items.len(),
{
    if items.len() == 0 {
        Map::empty()
    } else {
        collected(items.drop_last()).insert(items.last().0@, items.last().1.model())
    }
}

impl PresenceState {
    /// Collects ids with their references into a state.
    pub fn from_iter(items: Vec<PresenceIteratorItem>) -> (state: Self)
        ensures
            state.model() == collected(items@),
    {
        let ghost all = items@;
        let mut ids: PresenceStateInner = StringMap::new();
        proof {
            assert(ids.model() =~= collected(all.take(0)));
        }
        for item in it: items
            invariant
                it.seq() == all,
                ids.model() == collected(all.take(it.index())),
        {
            let ghost n = it.index();
            let ghost before = ids.model();
            let (id, phx_map) = item;
            ids.insert(id, phx_map);
            proof {
                assert(all.take(n + 1).drop_last() =~= all.take(n));
                assert(ids.model() =~= before.insert(id@, phx_map.model()));
            }
        }
        proof {
            assert(all.take(all.len() as int) =~= all);
        }
        PresenceState(ids)
    }
}

/// Raw presence meta data
#[derive(Debug, Clone)]
pub struct RawPresenceMeta {
    pub phx_ref: String,
    pub state_data: StateData,
}

impl Default for RawPresenceMeta {
    fn default() -> (meta: Self)
        ensures
            meta.phx_ref@ == Seq::<char>::empty(),
            meta.state_data@ == Map::<Seq<char>, Value>::empty(),
    {
        RawPresenceMeta { phx_ref: String::new(), state_data: StringMap::new() }
    }
}

/// Collection of raw presence metas
#[derive(Debug, Clone)]
pub struct RawPresenceMetas {
    pub metas: Vec<RawPresenceMeta>,
}

impl Default for RawPresenceMetas {
    fn default() -> (metas: Self)
        ensures
            metas.metas@.len() == 0,
    {
        RawPresenceMetas { metas: Vec::new() }
    }
}

/// What a list of metas stands for: where a reference occurs twice, the later
/// meta counts.
pub open spec fn metas_model(metas: Seq<RawPresenceMeta>) -> PhxModel
    decreases metas.len(),
{
    if metas.len() == 0 {
        Map::empty()
    } else {
        metas_model(metas.drop_last()).insert(
            metas.last().phx_ref@,
            metas.last().state_data.model(),
        )
    }
}

/// What the state that the server sends stands for.
pub open spec fn raw_model(raw: RawPresenceState) -> PresenceModel {
    raw@.map_values(|metas: RawPresenceMetas| metas_model(metas.metas@))
}

impl RawPresenceMetas {
    /// Keys the metas by their reference.
    fn into_phx_map(self) -> (phx_map: PhxMap)
        ensures
            phx_map.model() == metas_model(self.metas@),
    {
        let ghost all = self.metas@;
        let mut phx_map: PhxMap = StringMap::new();
        proof {
            assert(phx_map.model() =~= metas_model(all.take(0)));
        }
        for meta in it: self.metas
            invariant
                it.seq() == all,
                phx_map.model() == metas_model(all.take(it.index())),
        {
            let ghost n = it.index();
            let ghost before = phx_map.model();
            let RawPresenceMeta { phx_ref, state_data } = meta;
            phx_map.insert(phx_ref, state_data);
            proof {
                assert(all.take(n + 1).drop_last() =~= all.take(n));
                assert(phx_map.model() =~= before.insert(phx_ref@, state_data.model()));
            }
        }
        proof {
            assert(all.take(all.len() as int) =~= all);
        }
        phx_map
    }
}

impl From<RawPresenceState> for PresenceState {
    fn from(val: RawPresenceState) -> (state: Self)
        ensures
            state.model() == raw_model(val),
            state.0.keys() == val.keys(),
            val.ordered(),
    {
        let mut ids: PresenceStateInner = StringMap::new();
        let entries = val.into_entries();
        let ghost all = entries@;
        proof {
            assert(ids.keys() =~= val.keys().take(0));
        }
        for entry in it: entries
            invariant
                it.seq() == all,
                all.len() == val.keys().len(),
                val.ordered(),
                forall|i: int|
                    0 <= i < all.len() ==> (#[trigger] all[i]).0@ == val.keys()[i]
                        && val@.contains_key(val.keys()[i]) && all[i].1 == val@[val.keys()[i]],
                ids.keys() == val.keys().take(it.index()),
                forall|id: Seq<char>| #[trigger]
                    ids@.contains_key(id) <==> val.keys().take(it.index()).contains(id),
                forall|id: Seq<char>| #[trigger]
                    ids@.contains_key(id) ==> ids@[id].model() == metas_model(val@[id].metas@),
        {
            let ghost n = it.index();
            let (id, metas) = entry;
            assert(!val.keys().take(n).contains(id@));
            ids.insert(id, metas.into_phx_map());
            proof {
                lemma_longer_take(val.keys(), n);
            }
        }
        let state = PresenceState(ids);
        proof {
            assert(val.keys().take(all.len() as int) =~= val.keys());
            assert(state.model() =~= raw_model(val));
        }
        state
    }
}

impl vstd::std_specs::convert::FromSpecImpl<RawPresenceState> for PresenceState {
    open spec fn obeys_from_spec() -> bool {
        false
    }

    open spec fn from_spec(val: RawPresenceState) -> Self {
        arbitrary()
    }
}

/// Presence change as the server sends it
#[derive(Debug, Clone)]
pub struct RawPresenceDiff {
    pub joins: RawPresenceState,
    pub leaves: RawPresenceState,
}

impl From<RawPresenceDiff> for PresenceDiff {
    fn from(val: RawPresenceDiff) -> (diff: Self)
        ensures
            diff.joins.model() == raw_model(val.joins),
            diff.joins.0.keys() == val.joins.keys(),
            diff.leaves.model() == raw_model(val.leaves),
            diff.leaves.0.keys() == val.leaves.keys(),
            val.joins.ordered(),
            val.leaves.ordered(),
    {
        PresenceDiff { joins: PresenceState::from(val.joins), leaves: PresenceState::from(val.leaves) }
    }
}

impl vstd::std_specs::convert::FromSpecImpl<RawPresenceDiff> for PresenceDiff {
    open spec fn obeys_from_spec() -> bool {
        false
    }

    open spec fn from_spec(val: RawPresenceDiff) -> Self {
        arbitrary()
    }
}

/// Who came and who went
#[derive(Debug, Clone)]
pub struct PresenceDiff {
    pub joins: PresenceState,
    pub leaves: PresenceState,
}

} // verus!
