//! The registry of window states.

use crate::window::{WindowIdentity, WindowState};
use std::collections::HashMap;
use vstd::prelude::*;

verus! {

broadcast use vstd::std_specs::hash::group_hash_axioms;

/// The table of the states of all open windows, by window identity.
///
/// An identity has at most one entry. Entries stay until the registry is
/// dropped: nothing removes one.
pub struct AppStateRegistry {
    states: HashMap<u64, WindowState>,
}

impl View for AppStateRegistry {
    type V = Map<WindowIdentity, WindowState>;

    closed spec fn view(&self) -> Map<WindowIdentity, WindowState> {
        Map::new(
            |id: WindowIdentity| self.states@.contains_key(id.raw),
            |id: WindowIdentity| self.states@[id.raw],
        )
    }
}

impl AppStateRegistry {
    /// The registry of an application without windows.
    pub fn new() -> (registry: AppStateRegistry)
        ensures
            registry@ == Map::<WindowIdentity, WindowState>::empty(),
    {
        let registry = AppStateRegistry { states: HashMap::new() };
        assert(registry@ =~= Map::<WindowIdentity, WindowState>::empty());
        registry
    }

    /// Puts `state` under `identity`. Where the identity had an entry, the new
    /// state replaces it and the old one is returned. No other entry changes.
    pub fn register(&mut self, identity: WindowIdentity, state: WindowState) -> (previous: Option<
        WindowState,
    >)
        ensures
            final(self)@ == old(self)@.insert(identity, state),
            previous == if old(self)@.contains_key(identity) {
                Some(old(self)@[identity])
            } else {
                None
            },
    {
        let previous = self.states.insert(identity.raw, state);
        assert(self@ =~= old(self)@.insert(identity, state));
        previous
    }

    /// The state that stands under `identity`.
    pub fn lookup(&self, identity: WindowIdentity) -> (state: Option<WindowState>)
        ensures
            state == if self@.contains_key(identity) {
                Some(self@[identity])
            } else {
                None
            },
    {
        match self.states.get(&identity.raw) {
            Some(state) => Some(*state),
            None => None,
        }
    }

    /// The number of windows that have an entry.
    pub fn len(&self) -> (count: usize)
        ensures
            self@.dom().finite(),
            count == self@.len(),
    {
        proof {
            let wrap = |raw: u64| WindowIdentity { raw };
            assert(self.states@.dom().map(wrap) =~= self@.dom()) by {
                assert forall|id: WindowIdentity| self@.dom().contains(id) implies self.states@.dom().map(
                    wrap,
                ).contains(id) by {
                    assert(self.states@.dom().contains(id.raw) && wrap(id.raw) == id);
                }
            }
            vstd::set_lib::lemma_map_size(self.states@.dom(), self@.dom(), wrap);
        }
        self.states.len()
    }

    /// Whether `identity` has an entry.
    pub fn contains(&self, identity: WindowIdentity) -> (present: bool)
        ensures
            present == self@.contains_key(identity),
    {
        self.states.contains_key(&identity.raw)
    }
}

/// Two windows with distinct identities have entries of their own: after both
/// are registered, in either order of reading, each identity gives the state
/// that was registered under it and never the other's.
pub proof fn lemma_distinct_windows_are_independent(
    registry: Map<WindowIdentity, WindowState>,
    first: WindowIdentity,
    first_state: WindowState,
    second: WindowIdentity,
    second_state: WindowState,
)
    requires
        first != second,
    ensures
        ({
            let both = registry.insert(first, first_state).insert(second, second_state);
            &&& both.contains_key(first) && both[first] == first_state
            &&& both.contains_key(second) && both[second] == second_state
            &&& forall|other: WindowIdentity|
                other != first && other != second ==> (both.contains_key(other)
                    <==> registry.contains_key(other))
            &&& forall|other: WindowIdentity|
                other != first && other != second && registry.contains_key(other)
                    ==> both[other] == registry[other]
        }),
{
}

} // verus!
