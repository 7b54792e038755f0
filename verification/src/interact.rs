//! The pointer for one frame, and the single slot that says which region owns
//! it.

use vstd::prelude::*;
use crate::geom::Rect;
use crate::geom::Vec2;

verus! {

/// Which region of a widget an interaction identity names.
#[derive(Clone, Copy, Debug, PartialEq, Eq, Structural)]
pub enum Part {
    /// The widget as a whole.
    Widget,
    /// The content viewport of a scroll area, dragged to scroll.
    Area,
    /// The vertical scrollbar of a scroll area: its handle and its track.
    Vertical,
}

/// The identity of an interactive region: the widget's key and the part of it.
#[derive(Clone, Copy, Debug, PartialEq, Eq, Structural)]
pub struct Id {
    pub key: u64,
    pub part: Part,
}

impl Id {
    pub fn new(key: u64) -> (id: Id)
        ensures
            id == (Id { key, part: Part::Widget }),
    {
        Id { key, part: Part::Widget }
    }

    /// The identity of `part` of the same widget.
    pub fn with(self, part: Part) -> (id: Id)
        ensures
            id == (Id { key: self.key, part }),
    {
        Id { key: self.key, part }
    }
}

/// What the input layer saw in one frame.
#[derive(Clone, Copy, Debug, PartialEq, Eq, Structural)]
pub struct Input {
    /// Where the pointer is, if it is anywhere.
    pub pointer: Option<Vec2>,
    /// How far the pointer moved since the last frame.
    pub pointer_delta: Vec2,
    /// How far the wheel turned since the last frame.
    pub wheel_delta: Vec2,
    /// The pointer's button went down in this frame.
    pub pressed: bool,
}

impl Input {
    /// The pointer is at a position and both deltas are spans.
    pub open spec fn wf(self) -> bool {
        &&& self.pointer_delta.is_span()
        &&& self.wheel_delta.is_span()
        &&& match self.pointer {
            Some(p) => p.is_pos(),
            None => true,
        }
    }

    /// Nothing moved and nothing was pressed.
    pub open spec fn quiet(self) -> bool {
        self.pointer_delta.y == 0 && self.wheel_delta.y == 0 && !self.pressed
    }

    /// The pointer is somewhere in `rect`.
    pub open spec fn spec_over(self, rect: Rect) -> bool {
        match self.pointer {
            Some(p) => rect.spec_contains(p),
            None => false,
        }
    }

    /// Tests `wf`.
    pub fn check(&self) -> (b: bool)
        ensures
            b == self.wf(),
    {
        self.pointer_delta.check_span() && self.wheel_delta.check_span() && match self.pointer {
            Some(p) => p.check_pos(),
            None => true,
        }
    }

    pub fn over(&self, rect: Rect) -> (b: bool)
        ensures
            b == self.spec_over(rect),
    {
        match self.pointer {
            Some(p) => rect.contains(p),
            None => false,
        }
    }
}

/// What `Arbiter::interact` reports of one region.
#[derive(Clone, Copy, Debug, PartialEq, Eq, Structural)]
pub struct Interaction {
    /// The pointer is over the region.
    pub hovered: bool,
    /// The region's identity owns the pointer.
    pub active: bool,
}

/// The one slot for the region that owns the pointer. The first region to
/// claim an empty slot keeps it until it is released.
#[derive(Clone, Copy, Debug, PartialEq, Eq, Structural)]
pub struct Arbiter {
    pub active: Option<Id>,
}

impl Arbiter {
    /// The slot after `id` asked for it: `id` gets an empty slot, a taken one
    /// stays as it is.
    pub open spec fn spec_claim(self, id: Id) -> Arbiter {
        match self.active {
            Some(_) => self,
            None => Arbiter { active: Some(id) },
        }
    }

    pub open spec fn spec_is_active(self, id: Id) -> bool {
        self.active == Some(id)
    }

    /// The slot after the region `rect` with identity `id` was registered: a
    /// press over the region asks for the slot.
    pub open spec fn spec_after_interact(self, rect: Rect, id: Id, input: Input) -> Arbiter {
        if input.pressed && input.spec_over(rect) {
            self.spec_claim(id)
        } else {
            self
        }
    }

    /// What registering the region reports.
    pub open spec fn spec_interaction(self, rect: Rect, id: Id, input: Input) -> Interaction {
        Interaction {
            hovered: input.spec_over(rect),
            active: self.spec_after_interact(rect, id, input).spec_is_active(id),
        }
    }

    pub fn new() -> (a: Arbiter)
        ensures
            a.active.is_none(),
    {
        Arbiter { active: None }
    }

    pub fn is_active(&self, id: Id) -> (b: bool)
        ensures
            b == self.spec_is_active(id),
    {
        match self.active {
            Some(a) => a == id,
            None => false,
        }
    }

    /// No region owns the pointer.
    pub fn is_free(&self) -> (b: bool)
        ensures
            b == self.active.is_none(),
    {
        self.active.is_none()
    }

    /// Asks for the slot. Returns whether `id` owns it afterwards.
    pub fn try_claim(&mut self, id: Id) -> (owned: bool)
        ensures
            *final(self) == old(self).spec_claim(id),
            owned == final(self).spec_is_active(id),
    {
        if self.active.is_none() {
            self.active = Some(id);
        }
        self.is_active(id)
    }

    /// Gives the slot up if `id` owns it.
    pub fn release(&mut self, id: Id)
        ensures
            old(self).spec_is_active(id) ==> final(self).active.is_none(),
            !old(self).spec_is_active(id) ==> *final(self) == *old(self),
    {
        if self.is_active(id) {
            self.active = None;
        }
    }

    /// Registers the region `rect` under `id` for this frame.
    pub fn interact(&mut self, rect: Rect, id: Id, input: &Input) -> (r: Interaction)
        ensures
            *final(self) == old(self).spec_after_interact(rect, id, *input),
            r == old(self).spec_interaction(rect, id, *input),
    {
        let hovered = input.over(rect);
        if input.pressed && hovered {
            self.try_claim(id);
        }
        Interaction { hovered, active: self.is_active(id) }
    }
}

} // verus!
