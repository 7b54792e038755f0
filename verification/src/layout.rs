//! A layout context: a region that fills from the top, remembers how far its
//! content reached, and collects what was drawn into it.

use vstd::prelude::*;
use crate::draw::DrawCommand;
use crate::geom::Rect;
use crate::geom::Vec2;
use crate::geom::max_of;
use crate::geom::min_of;
use crate::geom::spec_max;
use crate::geom::spec_min;

verus! {

pub struct Ui {
    /// The rectangle this context was given.
    pub region: Rect,
    /// Nothing outside it is shown.
    pub clip: Rect,
    /// Where the next element goes.
    pub cursor: Vec2,
    /// The smallest rectangle around all that was laid out so far.
    pub bounds: Rect,
    /// What was drawn, in order.
    pub commands: Vec<DrawCommand>,
}

impl Ui {
    /// Every rectangle and the cursor are made of positions.
    pub open spec fn wf(self) -> bool {
        self.region.is_pos() && self.clip.is_pos() && self.cursor.is_pos() && self.bounds.is_pos()
    }

    /// Tests `wf`.
    pub fn check(&self) -> (b: bool)
        ensures
            b == self.wf(),
    {
        self.region.check_pos() && self.clip.check_pos() && self.cursor.check_pos()
            && self.bounds.check_pos()
    }

    /// What is left of the region: from the cursor to the region's far corner.
    pub open spec fn spec_available(self) -> Rect {
        Rect { min: self.cursor, max: self.region.max }
    }

    /// The bounds after an element of `size` was placed at the cursor.
    pub open spec fn spec_bounds_with(self, size: Vec2) -> Rect {
        let placed = Rect::spec_from_min_size(self.cursor, size);
        Rect {
            min: Vec2 {
                x: spec_min(self.bounds.min.x as int, placed.min.x as int) as i64,
                y: spec_min(self.bounds.min.y as int, placed.min.y as int) as i64,
            },
            max: Vec2 {
                x: spec_max(self.bounds.max.x as int, placed.max.x as int) as i64,
                y: spec_max(self.bounds.max.y as int, placed.max.y as int) as i64,
            },
        }
    }

    /// A fresh context for `region`, clipped to `clip`: the cursor at the
    /// region's corner, bounds without extent, nothing drawn.
    pub fn new(region: Rect, clip: Rect) -> (ui: Ui)
        ensures
            ui.region == region,
            ui.clip == clip,
            ui.cursor == region.min,
            ui.bounds == (Rect { min: region.min, max: region.min }),
            ui.commands@ == Seq::<DrawCommand>::empty(),
    {
        Ui {
            region,
            clip,
            cursor: region.min,
            bounds: Rect { min: region.min, max: region.min },
            commands: Vec::new(),
        }
    }

    pub fn available(&self) -> (r: Rect)
        ensures
            r == self.spec_available(),
    {
        Rect { min: self.cursor, max: self.region.max }
    }

    pub fn clip_rect(&self) -> (r: Rect)
        ensures
            r == self.clip,
    {
        self.clip
    }

    pub fn set_clip_rect(&mut self, clip: Rect)
        ensures
            final(self).clip == clip,
            final(self).region == old(self).region,
            final(self).cursor == old(self).cursor,
            final(self).bounds == old(self).bounds,
            final(self).commands@ == old(self).commands@,
    {
        self.clip = clip;
    }

    /// A context for `region` inside this one, with this one's clip.
    pub fn child_ui(&self, region: Rect) -> (ui: Ui)
        ensures
            ui.region == region,
            ui.clip == self.clip,
            ui.cursor == region.min,
            ui.bounds == (Rect { min: region.min, max: region.min }),
            ui.commands@ == Seq::<DrawCommand>::empty(),
    {
        Ui::new(region, self.clip)
    }

    /// How far the content reached.
    pub fn bounding_size(&self) -> (s: Vec2)
        requires
            self.bounds.is_pos(),
        ensures
            s == self.bounds.spec_size(),
            s.is_span(),
    {
        self.bounds.size()
    }

    /// Places an element of `size` at the cursor and moves the cursor below
    /// it. Returns the element's rectangle.
    pub fn reserve_space(&mut self, size: Vec2) -> (placed: Rect)
        requires
            old(self).wf(),
            size.is_span(),
        ensures
            final(self).wf(),
            placed == Rect::spec_from_min_size(old(self).cursor, size),
            final(self).cursor == (Vec2 { x: old(self).cursor.x, y: placed.max.y }),
            final(self).bounds == old(self).spec_bounds_with(size),
            final(self).region == old(self).region,
            final(self).clip == old(self).clip,
            final(self).commands@ == old(self).commands@,
    {
        let placed = Rect::from_min_size(self.cursor, size);
        self.cursor = Vec2 { x: self.cursor.x, y: placed.max.y };
        self.bounds = Rect {
            min: Vec2 {
                x: min_of(self.bounds.min.x, placed.min.x),
                y: min_of(self.bounds.min.y, placed.min.y),
            },
            max: Vec2 {
                x: max_of(self.bounds.max.x, placed.max.x),
                y: max_of(self.bounds.max.y, placed.max.y),
            },
        };
        placed
    }

    /// Adds a shape to what this context draws.
    pub fn add_paint_cmd(&mut self, cmd: DrawCommand)
        ensures
            final(self).commands@ == old(self).commands@.push(cmd),
            final(self).region == old(self).region,
            final(self).clip == old(self).clip,
            final(self).cursor == old(self).cursor,
            final(self).bounds == old(self).bounds,
    {
        self.commands.push(cmd);
    }
}

} // verus!
