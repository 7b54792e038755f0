//! What a scroll area remembers from one frame to the next, and where it is
//! kept.

use std::collections::HashMap;
use vstd::prelude::*;
use crate::geom::COORD_MAX;
use crate::geom::Vec2;

verus! {

broadcast use vstd::std_specs::hash::group_hash_axioms;

/// The memory of one scroll area.
#[derive(Clone, Copy, Debug, PartialEq, Eq, Structural)]
pub struct ScrollState {
    /// How far the content is scrolled. A positive offset means scrolled
    /// down or right.
    pub offset: Vec2,
    /// The scrollbar was wanted in the last frame.
    pub visible: bool,
}

impl ScrollState {
    /// Neither component of the offset is beyond what a finished frame can
    /// leave behind: the difference of two sizes.
    pub open spec fn wf(self) -> bool {
        &&& -4 * COORD_MAX <= self.offset.x <= 4 * COORD_MAX
        &&& -4 * COORD_MAX <= self.offset.y <= 4 * COORD_MAX
    }

    /// Tests `wf`.
    pub fn check(&self) -> (b: bool)
        ensures
            b == self.wf(),
    {
        -4 * COORD_MAX <= self.offset.x && self.offset.x <= 4 * COORD_MAX && -4 * COORD_MAX
            <= self.offset.y && self.offset.y <= 4 * COORD_MAX
    }

    /// The state of an area that was never shown: no offset, no scrollbar.
    pub open spec fn spec_default() -> ScrollState {
        ScrollState { offset: Vec2 { x: 0, y: 0 }, visible: false }
    }
}

impl Default for ScrollState {
    fn default() -> (s: ScrollState)
        ensures
            s == ScrollState::spec_default(),
    {
        ScrollState { offset: Vec2 { x: 0, y: 0 }, visible: false }
    }
}

/// The states of all scroll areas, by widget key. An entry appears when an
/// area is first finished and is never removed here.
pub struct StateStore {
    map: HashMap<u64, ScrollState>,
}

impl View for StateStore {
    type V = Map<u64, ScrollState>;

    closed spec fn view(&self) -> Map<u64, ScrollState> {
        self.map@
    }
}

impl StateStore {
    /// What `get` gives for `key`: the entry, or the default state.
    pub open spec fn spec_get(self, key: u64) -> ScrollState {
        if self@.contains_key(key) {
            self@[key]
        } else {
            ScrollState::spec_default()
        }
    }

    pub fn new() -> (s: StateStore)
        ensures
            s@ == Map::<u64, ScrollState>::empty(),
    {
        StateStore { map: HashMap::new() }
    }

    /// The state kept for `key`, or the default state where there is none.
    pub fn get(&self, key: u64) -> (s: ScrollState)
        ensures
            s == self.spec_get(key),
    {
        match self.map.get(&key) {
            Some(s) => *s,
            None => ScrollState::default(),
        }
    }

    /// Keeps `state` for `key`, in place of what was there.
    pub fn set(&mut self, key: u64, state: ScrollState)
        ensures
            final(self)@ == old(self)@.insert(key, state),
    {
        self.map.insert(key, state);
    }
}

} // verus!
