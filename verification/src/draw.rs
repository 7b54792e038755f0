//! Colors, the look of an interactive element, and the shapes that a frame
//! draws.

use vstd::prelude::*;
use crate::geom::Rect;
use crate::interact::Interaction;

verus! {

#[derive(Clone, Copy, Debug, PartialEq, Eq, Structural)]
pub struct Color {
    pub r: u8,
    pub g: u8,
    pub b: u8,
    pub a: u8,
}

/// A line around a shape.
#[derive(Clone, Copy, Debug, PartialEq, Eq, Structural)]
pub struct Outline {
    pub width: i64,
    pub color: Color,
}

/// How an element is filled and outlined in one interaction state.
#[derive(Clone, Copy, Debug, PartialEq, Eq, Structural)]
pub struct Visuals {
    pub fill: Color,
    pub outline: Option<Outline>,
}

/// The looks of a surface.
#[derive(Clone, Copy, Debug, PartialEq, Eq, Structural)]
pub struct Style {
    /// Fill of recessed backgrounds, such as a scrollbar's track.
    pub dark_bg: Color,
    /// An element that the pointer neither owns nor is over.
    pub idle: Visuals,
    /// An element under the pointer.
    pub hovered: Visuals,
    /// The element that owns the pointer.
    pub active: Visuals,
}

impl Style {
    /// The look for an interaction: active before hovered before idle.
    pub open spec fn spec_interact(self, i: Interaction) -> Visuals {
        if i.active {
            self.active
        } else if i.hovered {
            self.hovered
        } else {
            self.idle
        }
    }

    pub fn interact(&self, i: &Interaction) -> (v: Visuals)
        ensures
            v == self.spec_interact(*i),
    {
        if i.active {
            self.active
        } else if i.hovered {
            self.hovered
        } else {
            self.idle
        }
    }
}

/// One shape handed to the renderer.
#[derive(Clone, Copy, Debug, PartialEq, Eq, Structural)]
pub enum DrawCommand {
    /// A rectangle with rounded corners, filled, outlined, or both.
    Rect { rect: Rect, corner_radius: i64, fill: Option<Color>, outline: Option<Outline> },
}

} // verus!
