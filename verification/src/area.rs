//! The scroll area: its configuration, the first half of a frame (`prepare`),
//! and the second half (`finish`), which resolves the pointer, holds the
//! offset in range, draws the scrollbar and keeps the state for the next
//! frame.

use vstd::prelude::*;
use crate::draw::DrawCommand;
use crate::draw::Style;
use crate::geom::COORD_MAX;
use crate::geom::Rect;
use crate::geom::Vec2;
use crate::geom::clamp_pos;
use crate::geom::div_toward_zero;
use crate::geom::div_trunc;
use crate::geom::is_span;
use crate::geom::max_of;
use crate::geom::min_of;
use crate::geom::remap;
use crate::geom::remap_clamp;
use crate::geom::remap_clamp_spec;
use crate::geom::remap_spec;
use crate::geom::saturate_pos;
use crate::geom::spec_max;
use crate::geom::spec_min;
use crate::interact::Arbiter;
use crate::interact::Id;
use crate::interact::Input;
use crate::interact::Interaction;
use crate::interact::Part;
use crate::layout::Ui;
use crate::state::ScrollState;
use crate::state::StateStore;

verus! {

/// Width of the scrollbar's column when it is there.
pub const SCROLL_BAR_WIDTH: i64 = 16;

/// Space between the content and the scrollbar's track.
pub const TRACK_GAP: i64 = 2;

/// How far the drawn handle stays inside its rectangle, on each side.
pub const HANDLE_INSET: i64 = 2;

/// What a frame shares among its widgets.
pub struct Context {
    pub store: StateStore,
    pub arbiter: Arbiter,
    pub input: Input,
    pub style: Style,
}

/// The offset held between zero and the lowest position that still fills the
/// viewport; zero where the content fits.
pub open spec fn clamp_offset(offset: int, content_height: int, inner_height: int) -> int {
    spec_max(0, spec_min(offset, content_height - inner_height))
}

/// A pointer movement along the track, as a movement of the content: scaled
/// by content height over track height, rounded toward zero. A track without
/// height moves nothing.
pub open spec fn drag_scaled(delta: int, content_height: int, inner_height: int) -> int {
    if inner_height > 0 {
        div_toward_zero(delta * content_height, inner_height)
    } else {
        0
    }
}

/// The scrollbar column's width for a frame: full where the scrollbar was
/// wanted in the last frame or is never hidden, else none.
pub open spec fn bar_width(visible: bool, auto_hide: bool) -> int {
    if visible || !auto_hide {
        SCROLL_BAR_WIDTH as int
    } else {
        0
    }
}

pub fn scale_drag(delta: i64, content_height: i64, inner_height: i64) -> (r: i64)
    requires
        is_span(delta as int),
        is_span(content_height as int),
    ensures
        r == drag_scaled(delta as int, content_height as int, inner_height as int),
        -4 * COORD_MAX * COORD_MAX <= r <= 4 * COORD_MAX * COORD_MAX,
{
    if inner_height > 0 {
        assert(-4 * COORD_MAX * COORD_MAX <= delta * content_height <= 4 * COORD_MAX * COORD_MAX)
            by (nonlinear_arith)
            requires
                -2 * COORD_MAX <= delta <= 2 * COORD_MAX,
                -2 * COORD_MAX <= content_height <= 2 * COORD_MAX,
        ;
        div_trunc(delta * content_height, inner_height)
    } else {
        0
    }
}

/// A region that shows a window of content taller than itself.
#[derive(Clone, Copy, Debug, PartialEq, Eq, Structural)]
pub struct ScrollArea {
    pub max_height: i64,
    pub always_show_scroll: bool,
    pub auto_hide_scroll: bool,
}

impl Default for ScrollArea {
    fn default() -> (a: ScrollArea)
        ensures
            a == (ScrollArea { max_height: 200, always_show_scroll: false, auto_hide_scroll: true }),
    {
        ScrollArea { max_height: 200, always_show_scroll: false, auto_hide_scroll: true }
    }
}

/// What `prepare` hands to `finish`, with the child context that the caller
/// fills in between.
pub struct Prepared {
    pub id: u64,
    pub state: ScrollState,
    pub current_scroll_bar_width: i64,
    pub always_show_scroll: bool,
    pub inner_rect: Rect,
    pub content_ui: Ui,
}

impl Prepared {
    /// The state, the viewport and the child context are within the limits,
    /// and the scrollbar's column has full width or none.
    pub open spec fn wf(self) -> bool {
        &&& self.state.wf()
        &&& self.inner_rect.is_pos()
        &&& self.content_ui.wf()
        &&& (self.current_scroll_bar_width == 0 || self.current_scroll_bar_width
            == SCROLL_BAR_WIDTH)
    }

    /// Tests `wf`.
    pub fn check(&self) -> (b: bool)
        ensures
            b == self.wf(),
    {
        self.state.check() && self.inner_rect.check_pos() && self.content_ui.check() && (
        self.current_scroll_bar_width == 0 || self.current_scroll_bar_width == SCROLL_BAR_WIDTH)
    }

    /// Identity of the viewport as a region to drag.
    pub open spec fn area_id(self) -> Id {
        Id { key: self.id, part: Part::Area }
    }

    /// Identity shared by the handle and the track.
    pub open spec fn bar_id(self) -> Id {
        Id { key: self.id, part: Part::Vertical }
    }

    /// Height of the viewport.
    pub open spec fn inner_height(self) -> int {
        self.inner_rect.spec_height()
    }

    /// The viewport, widened to the content where that is wider.
    pub open spec fn spec_inner(self, content: Vec2) -> Rect {
        Rect {
            min: self.inner_rect.min,
            max: Vec2 {
                x: clamp_pos(
                    self.inner_rect.min.x + spec_max(
                        self.inner_rect.spec_width(),
                        content.x as int,
                    ),
                ) as i64,
                y: self.inner_rect.max.y,
            },
        }
    }

    /// The viewport and the scrollbar's column.
    pub open spec fn spec_outer(self, content: Vec2) -> Rect {
        let inner = self.spec_inner(content);
        Rect {
            min: inner.min,
            max: Vec2 {
                x: clamp_pos(inner.max.x + self.current_scroll_bar_width) as i64,
                y: inner.max.y,
            },
        }
    }

    /// The content is taller than the viewport.
    pub open spec fn spec_scrollable(self, content: Vec2) -> bool {
        content.y > self.inner_height()
    }

    /// The slot after the viewport was registered, which happens only where
    /// there is something to scroll.
    pub open spec fn spec_arbiter_after_area(
        self,
        content: Vec2,
        arbiter: Arbiter,
        input: Input,
    ) -> Arbiter {
        if self.spec_scrollable(content) {
            arbiter.spec_after_interact(self.spec_inner(content), self.area_id(), input)
        } else {
            arbiter
        }
    }

    /// The content is being dragged.
    pub open spec fn spec_content_dragged(
        self,
        content: Vec2,
        arbiter: Arbiter,
        input: Input,
    ) -> bool {
        self.spec_scrollable(content) && self.spec_arbiter_after_area(
            content,
            arbiter,
            input,
        ).spec_is_active(self.area_id())
    }

    /// The wheel scrolls this area: the pointer is over it and no region owns
    /// the pointer.
    pub open spec fn spec_wheel_applies(self, content: Vec2, arbiter: Arbiter, input: Input) -> bool {
        input.spec_over(self.spec_outer(content)) && self.spec_arbiter_after_area(
            content,
            arbiter,
            input,
        ).active.is_none()
    }

    /// The offset after a drag of the content and the wheel.
    pub open spec fn spec_offset_after_wheel(
        self,
        content: Vec2,
        arbiter: Arbiter,
        input: Input,
    ) -> int {
        self.state.offset.y - (if self.spec_content_dragged(content, arbiter, input) {
            input.pointer_delta.y as int
        } else {
            0
        }) - (if self.spec_wheel_applies(content, arbiter, input) {
            input.wheel_delta.y as int
        } else {
            0
        })
    }

    /// The scrollbar is wanted in this frame.
    pub open spec fn spec_show_this_frame(self, content: Vec2) -> bool {
        self.spec_scrollable(content) || self.always_show_scroll
    }

    /// The scrollbar is drawn in this frame: wanted now, or wanted in the
    /// last frame.
    pub open spec fn spec_rendered(self, content: Vec2) -> bool {
        self.spec_show_this_frame(content) || self.state.visible
    }

    /// The strip in which the handle moves.
    pub open spec fn spec_track(self, content: Vec2) -> Rect {
        Rect {
            min: Vec2 {
                x: (self.spec_inner(content).max.x + TRACK_GAP) as i64,
                y: self.inner_rect.min.y,
            },
            max: Vec2 { x: self.spec_outer(content).max.x, y: self.inner_rect.max.y },
        }
    }

    /// Where the content's height `y` lies on the track.
    pub open spec fn spec_to_track(self, content: Vec2, y: int) -> int {
        remap_clamp_spec(
            y,
            0,
            content.y as int,
            self.inner_rect.min.y as int,
            self.inner_rect.max.y as int,
        )
    }

    /// The handle for an offset: the part of the track that stands for the
    /// window from `offset` to `offset` plus the viewport's height.
    pub open spec fn spec_handle(self, content: Vec2, offset: int) -> Rect {
        Rect {
            min: Vec2 {
                x: self.spec_track(content).min.x,
                y: self.spec_to_track(content, offset) as i64,
            },
            max: Vec2 {
                x: self.spec_track(content).max.x,
                y: self.spec_to_track(content, offset + self.inner_height()) as i64,
            },
        }
    }

    /// What registering the handle reports.
    pub open spec fn spec_handle_interaction(
        self,
        content: Vec2,
        arbiter: Arbiter,
        input: Input,
    ) -> Interaction {
        self.spec_arbiter_after_area(content, arbiter, input).spec_interaction(
            self.spec_handle(content, self.spec_offset_after_wheel(content, arbiter, input)),
            self.bar_id(),
            input,
        )
    }

    /// The slot after the handle was registered.
    pub open spec fn spec_arbiter_after_handle(
        self,
        content: Vec2,
        arbiter: Arbiter,
        input: Input,
    ) -> Arbiter {
        self.spec_arbiter_after_area(content, arbiter, input).spec_after_interact(
            self.spec_handle(content, self.spec_offset_after_wheel(content, arbiter, input)),
            self.bar_id(),
            input,
        )
    }

    /// The track is registered too: the scrollbar is drawn, the pointer is
    /// somewhere, and the handle does not own it.
    pub open spec fn spec_track_registered(
        self,
        content: Vec2,
        arbiter: Arbiter,
        input: Input,
    ) -> bool {
        &&& self.spec_rendered(content)
        &&& input.pointer.is_some()
        &&& !self.spec_handle_interaction(content, arbiter, input).active
    }

    /// The slot when the frame is finished.
    pub open spec fn spec_arbiter_final(self, content: Vec2, arbiter: Arbiter, input: Input) -> Arbiter {
        if self.spec_track_registered(content, arbiter, input) {
            self.spec_arbiter_after_handle(content, arbiter, input).spec_after_interact(
                self.spec_track(content),
                self.bar_id(),
                input,
            )
        } else if self.spec_rendered(content) {
            self.spec_arbiter_after_handle(content, arbiter, input)
        } else {
            self.spec_arbiter_after_area(content, arbiter, input)
        }
    }

    /// The handle is being dragged, with the pointer level with the viewport.
    pub open spec fn spec_handle_dragged(self, content: Vec2, arbiter: Arbiter, input: Input) -> bool {
        &&& self.spec_rendered(content)
        &&& self.spec_handle_interaction(content, arbiter, input).active
        &&& match input.pointer {
            Some(p) => self.inner_rect.min.y <= p.y <= self.inner_rect.max.y,
            None => false,
        }
    }

    /// The track was pressed beside the handle.
    pub open spec fn spec_track_clicked(self, content: Vec2, arbiter: Arbiter, input: Input) -> bool {
        &&& self.spec_track_registered(content, arbiter, input)
        &&& self.spec_arbiter_final(content, arbiter, input).spec_is_active(self.bar_id())
    }

    /// The offset that puts the handle's middle at the pointer's height `y`.
    pub open spec fn spec_track_target(
        self,
        content: Vec2,
        arbiter: Arbiter,
        input: Input,
        y: int,
    ) -> int {
        let handle = self.spec_handle(
            content,
            self.spec_offset_after_wheel(content, arbiter, input),
        );
        remap_spec(
            y - div_toward_zero(handle.spec_height(), 2),
            self.inner_rect.min.y as int,
            self.inner_rect.max.y as int,
            0,
            content.y as int,
        )
    }

    /// The offset after all interaction, before it is held in range.
    pub open spec fn spec_offset_resolved(self, content: Vec2, arbiter: Arbiter, input: Input) -> int {
        if self.spec_handle_dragged(content, arbiter, input) {
            self.spec_offset_after_wheel(content, arbiter, input) + drag_scaled(
                input.pointer_delta.y as int,
                content.y as int,
                self.inner_height(),
            )
        } else if self.spec_track_clicked(content, arbiter, input) {
            self.spec_track_target(content, arbiter, input, input.pointer.unwrap().y as int)
        } else {
            self.spec_offset_after_wheel(content, arbiter, input)
        }
    }

    /// The offset that the frame leaves behind.
    pub open spec fn spec_final_offset(self, content: Vec2, arbiter: Arbiter, input: Input) -> int {
        clamp_offset(
            self.spec_offset_resolved(content, arbiter, input),
            content.y as int,
            self.inner_height(),
        )
    }

    /// The offset at which the handle is drawn: raised to zero, then lowered
    /// to the end of the range.
    pub open spec fn spec_drawn_offset(self, content: Vec2, arbiter: Arbiter, input: Input) -> int {
        spec_min(
            spec_max(self.spec_offset_resolved(content, arbiter, input), 0),
            content.y - self.inner_height(),
        )
    }

    /// The state that the frame leaves behind.
    pub open spec fn spec_final_state(self, content: Vec2, arbiter: Arbiter, input: Input) -> ScrollState {
        ScrollState {
            offset: Vec2 {
                x: self.state.offset.x,
                y: self.spec_final_offset(content, arbiter, input) as i64,
            },
            visible: self.spec_show_this_frame(content),
        }
    }

    /// The shape drawn for the track.
    pub open spec fn spec_track_command(self, content: Vec2, style: Style) -> DrawCommand {
        DrawCommand::Rect {
            rect: self.spec_track(content),
            corner_radius: (self.current_scroll_bar_width / 2) as i64,
            fill: Some(style.dark_bg),
            outline: None,
        }
    }

    /// The shape drawn for the handle.
    pub open spec fn spec_handle_command(
        self,
        content: Vec2,
        arbiter: Arbiter,
        input: Input,
        style: Style,
    ) -> DrawCommand {
        let handle = self.spec_handle(content, self.spec_drawn_offset(content, arbiter, input));
        let look = style.spec_interact(self.spec_handle_interaction(content, arbiter, input));
        DrawCommand::Rect {
            rect: Rect {
                min: Vec2 {
                    x: (handle.min.x + HANDLE_INSET) as i64,
                    y: (handle.min.y + HANDLE_INSET) as i64,
                },
                max: Vec2 {
                    x: (handle.max.x - HANDLE_INSET) as i64,
                    y: (handle.max.y - HANDLE_INSET) as i64,
                },
            },
            corner_radius: (self.current_scroll_bar_width / 2) as i64,
            fill: Some(look.fill),
            outline: look.outline,
        }
    }

    /// What the frame draws for the scrollbar: the track, then the handle, or
    /// nothing.
    pub open spec fn spec_commands(
        self,
        content: Vec2,
        arbiter: Arbiter,
        input: Input,
        style: Style,
    ) -> Seq<DrawCommand> {
        if self.spec_rendered(content) {
            seq![
                self.spec_track_command(content, style),
                self.spec_handle_command(content, arbiter, input, style),
            ]
        } else {
            Seq::<DrawCommand>::empty()
        }
    }
}

/// The frame is finished: `after` and `shared_after` are what `finish` makes
/// of `before` and `shared_before` for the filled session `p`.
pub open spec fn finished(
    p: Prepared,
    before: Ui,
    after: Ui,
    shared_before: Context,
    shared_after: Context,
) -> bool {
    let content = p.content_ui.bounds.spec_size();
    let arbiter = shared_before.arbiter;
    let input = shared_before.input;
    &&& shared_after.store@ == shared_before.store@.insert(
        p.id,
        p.spec_final_state(content, arbiter, input),
    )
    &&& shared_after.arbiter == p.spec_arbiter_final(content, arbiter, input)
    &&& shared_after.input == input
    &&& shared_after.style == shared_before.style
    &&& after.commands@ == before.commands@ + p.content_ui.commands@ + p.spec_commands(
        content,
        arbiter,
        input,
        shared_before.style,
    )
    &&& after.bounds == before.spec_bounds_with(p.spec_outer(content).spec_size())
    &&& after.cursor == (Vec2 {
        x: before.cursor.x,
        y: Rect::spec_from_min_size(before.cursor, p.spec_outer(content).spec_size()).max.y,
    })
    &&& after.region == before.region
    &&& after.clip == before.clip
}

impl ScrollArea {
    /// The greatest height is positive and a size.
    pub open spec fn wf(self) -> bool {
        0 < self.max_height <= 2 * COORD_MAX
    }

    /// Tests `wf`.
    pub fn check(&self) -> (b: bool)
        ensures
            b == self.wf(),
    {
        0 < self.max_height && self.max_height <= 2 * COORD_MAX
    }

    /// The viewport for a frame: at the cursor, as wide as what is left less
    /// the scrollbar's column, as high as what is left but no higher than
    /// `max_height`.
    pub open spec fn spec_inner_rect(self, ui: Ui, state: ScrollState) -> Rect {
        let avail = ui.spec_available();
        Rect::spec_from_min_size(
            avail.min,
            Vec2 {
                x: (avail.spec_width() - bar_width(state.visible, self.auto_hide_scroll)) as i64,
                y: spec_min(avail.spec_height(), self.max_height as int) as i64,
            },
        )
    }

    /// The child's region: the viewport's corner moved up and left by the
    /// offset, the viewport's width, and all the height there is.
    pub open spec fn spec_content_region(self, ui: Ui, state: ScrollState) -> Rect {
        let inner = self.spec_inner_rect(ui, state);
        let left = clamp_pos(inner.min.x - state.offset.x);
        Rect {
            min: Vec2 { x: left as i64, y: clamp_pos(inner.min.y - state.offset.y) as i64 },
            max: Vec2 {
                x: clamp_pos(
                    left + ui.spec_available().spec_width() - bar_width(
                        state.visible,
                        self.auto_hide_scroll,
                    ),
                ) as i64,
                y: COORD_MAX,
            },
        }
    }

    /// The child's clip: what the parent's clip and the viewport share, its
    /// right edge kept off the scrollbar's column.
    pub open spec fn spec_content_clip(self, ui: Ui, state: ScrollState) -> Rect {
        let shared = ui.clip.spec_intersect(self.spec_inner_rect(ui, state));
        Rect {
            min: shared.min,
            max: Vec2 {
                x: clamp_pos(ui.clip.max.x - bar_width(state.visible, self.auto_hide_scroll)) as i64,
                y: shared.max.y,
            },
        }
    }

    /// `p` is the session that `prepare` opens for the area `id` in `ui`.
    pub open spec fn prepared_by(self, ui: Ui, store: StateStore, id: u64, p: Prepared) -> bool {
        let state = store.spec_get(id);
        let region = self.spec_content_region(ui, state);
        &&& p.id == id
        &&& p.state == state
        &&& p.current_scroll_bar_width == bar_width(state.visible, self.auto_hide_scroll)
        &&& p.always_show_scroll == self.always_show_scroll
        &&& p.inner_rect == self.spec_inner_rect(ui, state)
        &&& p.content_ui.region == region
        &&& p.content_ui.clip == self.spec_content_clip(ui, state)
        &&& p.content_ui.cursor == region.min
        &&& p.content_ui.bounds == (Rect { min: region.min, max: region.min })
        &&& p.content_ui.commands@ == Seq::<DrawCommand>::empty()
    }

    pub fn max_height(self, max_height: i64) -> (a: ScrollArea)
        ensures
            a == (ScrollArea { max_height, ..self }),
    {
        ScrollArea { max_height, ..self }
    }

    pub fn always_show_scroll(self, always_show_scroll: bool) -> (a: ScrollArea)
        ensures
            a == (ScrollArea { always_show_scroll, ..self }),
    {
        ScrollArea { always_show_scroll, ..self }
    }

    pub fn auto_hide_scroll(self, auto_hide_scroll: bool) -> (a: ScrollArea)
        ensures
            a == (ScrollArea { auto_hide_scroll, ..self }),
    {
        ScrollArea { auto_hide_scroll, ..self }
    }

    /// Opens the frame for the area `id`: reads its state, lays the viewport
    /// out in what `ui` has left, and makes the child context for the content.
    pub fn prepare(self, ui: &Ui, shared: &Context, id: u64) -> (p: Prepared)
        requires
            ui.wf(),
            self.wf(),
            shared.store.spec_get(id).wf(),
        ensures
            self.prepared_by(*ui, shared.store, id, p),
            p.wf(),
    {
        let state = shared.store.get(id);
        let width: i64 = if state.visible || !self.auto_hide_scroll {
            SCROLL_BAR_WIDTH
        } else {
            0
        };
        let avail = ui.available();
        let inner_width: i64 = avail.width() - width;
        let inner_height: i64 = min_of(avail.height(), self.max_height);
        let inner_rect = Rect {
            min: avail.min,
            max: Vec2 {
                x: saturate_pos(avail.min.x + inner_width),
                y: saturate_pos(avail.min.y + inner_height),
            },
        };
        let left: i64 = saturate_pos(inner_rect.min.x - state.offset.x);
        let region = Rect {
            min: Vec2 { x: left, y: saturate_pos(inner_rect.min.y - state.offset.y) },
            max: Vec2 { x: saturate_pos(left + inner_width), y: COORD_MAX },
        };
        let shared_clip = ui.clip_rect().intersect(inner_rect);
        let clip = Rect {
            min: shared_clip.min,
            max: Vec2 { x: saturate_pos(ui.clip_rect().max.x - width), y: shared_clip.max.y },
        };
        let mut content_ui = ui.child_ui(region);
        content_ui.set_clip_rect(clip);
        Prepared {
            id,
            state,
            current_scroll_bar_width: width,
            always_show_scroll: self.always_show_scroll,
            inner_rect,
            content_ui,
        }
    }

    /// One frame of the area `id` in `ui`: opens it, hands the child context
    /// to `add_contents`, which lays the content out in it and hands it back,
    /// and closes it. Returns what `add_contents` returned beside the child.
    pub fn show<R, F: FnOnce(Ui) -> (Ui, R)>(
        self,
        ui: &mut Ui,
        shared: &mut Context,
        id: u64,
        add_contents: F,
    ) -> (ret: R)
        requires
            old(ui).wf(),
            self.wf(),
            old(shared).store.spec_get(id).wf(),
            old(shared).input.wf(),
            forall|child: Ui| child.wf() ==> add_contents.requires((child,)),
            forall|child: Ui, out: (Ui, R)|
                child.wf() && add_contents.ensures((child,), out) ==> out.0.wf(),
        ensures
            final(ui).wf(),
            final(shared).store.spec_get(id).wf(),
            exists|p: Prepared, content: Ui|
                {
                    &&& self.prepared_by(*old(ui), old(shared).store, id, p)
                    &&& add_contents.ensures((p.content_ui,), (content, ret))
                    &&& #[trigger] finished(
                        Prepared { content_ui: content, ..p },
                        *old(ui),
                        *final(ui),
                        *old(shared),
                        *final(shared),
                    )
                },
    {
        let prepared = self.prepare(ui, shared, id);
        let ghost opened = prepared;
        let Prepared {
            id: key,
            state,
            current_scroll_bar_width,
            always_show_scroll,
            inner_rect,
            content_ui,
        } = prepared;
        let (content, ret) = add_contents(content_ui);
        let ghost filled = content;
        let closing = Prepared {
            id: key,
            state,
            current_scroll_bar_width,
            always_show_scroll,
            inner_rect,
            content_ui: content,
        };
        Self::finish(ui, shared, closing);
        assert(finished(
            Prepared { content_ui: filled, ..opened },
            *old(ui),
            *ui,
            *old(shared),
            *shared,
        ));
        ret
    }

    /// Closes the frame: measures the content, lets the pointer move the
    /// offset, holds the offset in range, draws the scrollbar after the
    /// content, takes the area's place in `ui`, and keeps the state.
    pub fn finish(ui: &mut Ui, shared: &mut Context, prepared: Prepared)
        requires
            old(ui).wf(),
            prepared.wf(),
            old(shared).input.wf(),
        ensures
            finished(prepared, *old(ui), *final(ui), *old(shared), *final(shared)),
            final(ui).wf(),
            final(shared).store.spec_get(prepared.id).wf(),
            0 <= final(shared).store.spec_get(prepared.id).offset.y <= spec_max(
                0,
                prepared.content_ui.bounds.spec_height() - prepared.inner_rect.spec_height(),
            ),
    {
        let ghost arbiter0 = shared.arbiter;
        let input = shared.input;
        let style = shared.style;
        let id = prepared.id;
        let state = prepared.state;
        let width: i64 = prepared.current_scroll_bar_width;
        let first = prepared.inner_rect;
        let always_show_scroll = prepared.always_show_scroll;
        let ghost p = prepared;
        let mut content_ui = prepared.content_ui;
        let content = content_ui.bounding_size();
        ui.commands.append(&mut content_ui.commands);

        let inner = Rect {
            min: first.min,
            max: Vec2 {
                x: saturate_pos(first.min.x + max_of(first.width(), content.x)),
                y: first.max.y,
            },
        };
        let outer = Rect {
            min: inner.min,
            max: Vec2 { x: saturate_pos(inner.max.x + width), y: inner.max.y },
        };
        let height: i64 = first.height();
        let top: i64 = first.min.y;
        let bottom: i64 = first.max.y;
        let scrollable = content.y > height;
        let mut offset: i64 = state.offset.y;

        if scrollable {
            let dragged = shared.arbiter.interact(inner, Id::new(id).with(Part::Area), &input);
            if dragged.active {
                offset = offset - input.pointer_delta.y;
            }
        }
        if input.over(outer) && shared.arbiter.is_free() {
            offset = offset - input.wheel_delta.y;
        }

        let show_this_frame = scrollable || always_show_scroll;
        if show_this_frame || state.visible {
            let left: i64 = inner.max.x + TRACK_GAP;
            let right: i64 = outer.max.x;
            let corner_radius: i64 = div_trunc(width, 2);
            let track = Rect { min: Vec2 { x: left, y: top }, max: Vec2 { x: right, y: bottom } };
            let handle = Rect {
                min: Vec2 { x: left, y: remap_clamp(offset, 0, content.y, top, bottom) },
                max: Vec2 { x: right, y: remap_clamp(offset + height, 0, content.y, top, bottom) },
            };
            let bar = Id::new(id).with(Part::Vertical);
            let on_handle = shared.arbiter.interact(handle, bar, &input);
            match input.pointer {
                Some(pointer) => {
                    if on_handle.active {
                        if top <= pointer.y && pointer.y <= bottom {
                            offset = offset + scale_drag(input.pointer_delta.y, content.y, height);
                        }
                    } else {
                        let on_track = shared.arbiter.interact(track, bar, &input);
                        if on_track.active {
                            let half: i64 = div_trunc(handle.max.y - handle.min.y, 2);
                            offset = remap(pointer.y - half, top, bottom, 0, content.y);
                        }
                    }
                },
                None => {},
            }
            offset = max_of(offset, 0);
            offset = min_of(offset, content.y - height);
            let handle = Rect {
                min: Vec2 { x: left, y: remap_clamp(offset, 0, content.y, top, bottom) },
                max: Vec2 { x: right, y: remap_clamp(offset + height, 0, content.y, top, bottom) },
            };
            let look = style.interact(&on_handle);
            ui.add_paint_cmd(
                DrawCommand::Rect {
                    rect: track,
                    corner_radius,
                    fill: Some(style.dark_bg),
                    outline: None,
                },
            );
            ui.add_paint_cmd(
                DrawCommand::Rect {
                    rect: Rect {
                        min: Vec2 { x: handle.min.x + HANDLE_INSET, y: handle.min.y + HANDLE_INSET },
                        max: Vec2 { x: handle.max.x - HANDLE_INSET, y: handle.max.y - HANDLE_INSET },
                    },
                    corner_radius,
                    fill: Some(look.fill),
                    outline: look.outline,
                },
            );
        }
        assert(ui.commands@ =~= old(ui).commands@ + p.content_ui.commands@ + p.spec_commands(
            content,
            arbiter0,
            input,
            style,
        ));

        ui.reserve_space(outer.size());

        offset = min_of(offset, content.y - height);
        offset = max_of(offset, 0);
        let kept = ScrollState { offset: Vec2 { x: state.offset.x, y: offset }, visible: show_this_frame };
        shared.store.set(id, kept);
    }
}

} // verus!
