//! What holds of every frame, whatever the pointer did.

use vstd::arithmetic::div_mod::lemma_div_is_ordered;
use vstd::arithmetic::div_mod::lemma_fundamental_div_mod;
use vstd::prelude::*;
use crate::area::Context;
use crate::area::Prepared;
use crate::area::ScrollArea;
use crate::area::clamp_offset;
use crate::area::drag_scaled;
use crate::area::finished;
use crate::draw::DrawCommand;
use crate::draw::Style;
use crate::geom::Vec2;
use crate::geom::div_toward_zero;
use crate::geom::lemma_remap_inside;
use crate::geom::spec_max;
use crate::interact::Arbiter;
use crate::interact::Input;
use crate::layout::Ui;
use crate::state::ScrollState;
use crate::state::StateStore;

verus! {

/// A quotient rounded toward zero is less than one divisor away from the
/// exact one, on the side of zero; it is exact where the division leaves no
/// remainder.
pub proof fn lemma_div_toward_zero_bounds(a: int, b: int)
    requires
        b > 0,
    ensures
        a >= 0 ==> div_toward_zero(a, b) * b <= a < div_toward_zero(a, b) * b + b,
        a <= 0 ==> div_toward_zero(a, b) * b - b < a <= div_toward_zero(a, b) * b,
        a == 0 ==> div_toward_zero(a, b) == 0,
{
    if a >= 0 {
        assert((a / b) * b <= a < (a / b) * b + b) by (nonlinear_arith)
            requires
                a >= 0,
                b > 0,
        ;
        assert(a == 0 ==> a / b == 0) by (nonlinear_arith)
            requires
                b > 0,
        ;
    } else {
        let n = -a;
        assert((n / b) * b <= n < (n / b) * b + b) by (nonlinear_arith)
            requires
                n >= 0,
                b > 0,
        ;
        assert((-(n / b)) * b == -((n / b) * b)) by (nonlinear_arith);
    }
}

/// A finished frame leaves the offset between zero and the lowest position
/// that still fills the viewport, whatever was dragged, turned or pressed.
pub proof fn lemma_offset_in_range(p: Prepared, content: Vec2, arbiter: Arbiter, input: Input)
    ensures
        0 <= p.spec_final_offset(content, arbiter, input) <= spec_max(
            0,
            content.y - p.inner_height(),
        ),
        p.spec_final_state(content, arbiter, input).offset.x == p.state.offset.x,
{
}

/// An offset beyond either end of the range stops at that end.
pub proof fn lemma_overshoot_stops_at_ends(offset: int, content_height: int, inner_height: int)
    ensures
        offset <= 0 ==> clamp_offset(offset, content_height, inner_height) == 0,
        content_height <= inner_height ==> clamp_offset(offset, content_height, inner_height) == 0,
        offset >= content_height - inner_height >= 0 ==> clamp_offset(
            offset,
            content_height,
            inner_height,
        ) == content_height - inner_height,
        0 <= offset <= content_height - inner_height ==> clamp_offset(
            offset,
            content_height,
            inner_height,
        ) == offset,
{
}

/// A frame in which nothing moved and nothing was pressed leaves an offset
/// that is in range as it found it.
pub proof fn lemma_quiet_frame_keeps_offset(
    p: Prepared,
    content: Vec2,
    arbiter: Arbiter,
    input: Input,
)
    requires
        input.quiet(),
        0 <= p.state.offset.y <= spec_max(0, content.y - p.inner_height()),
    ensures
        p.spec_final_offset(content, arbiter, input) == p.state.offset.y,
{
    if p.inner_height() > 0 {
        lemma_div_toward_zero_bounds(0, p.inner_height());
    }
    assert(drag_scaled(0, content.y as int, p.inner_height()) == 0);
}

/// Finishing twice: where a second frame starts from the offset that a first
/// one left, over content and a viewport of the same heights, and nothing
/// moves or is pressed in it, it leaves that offset unchanged.
pub proof fn lemma_finish_twice_keeps_offset(
    first: Prepared,
    content: Vec2,
    arbiter: Arbiter,
    input: Input,
    second: Prepared,
    second_content: Vec2,
    second_arbiter: Arbiter,
    second_input: Input,
)
    requires
        second.state.offset.y == first.spec_final_offset(content, arbiter, input),
        second.inner_height() == first.inner_height(),
        second_content.y == content.y,
        second_input.quiet(),
    ensures
        second.spec_final_offset(second_content, second_arbiter, second_input)
            == first.spec_final_offset(content, arbiter, input),
{
    lemma_offset_in_range(first, content, arbiter, input);
    lemma_quiet_frame_keeps_offset(second, second_content, second_arbiter, second_input);
}

/// The wheel moves the content against its own direction: where it applies
/// and the content is not dragged, the offset goes down by the wheel's delta
/// before it is held in range. Where neither applies the offset stays.
pub proof fn lemma_wheel_moves_offset(p: Prepared, content: Vec2, arbiter: Arbiter, input: Input)
    requires
        !p.spec_content_dragged(content, arbiter, input),
    ensures
        p.spec_wheel_applies(content, arbiter, input) ==> p.spec_offset_after_wheel(
            content,
            arbiter,
            input,
        ) == p.state.offset.y - input.wheel_delta.y,
        !p.spec_wheel_applies(content, arbiter, input) ==> p.spec_offset_after_wheel(
            content,
            arbiter,
            input,
        ) == p.state.offset.y,
{
}

/// Dragging the handle moves the content by the pointer's movement times the
/// content's height over the track's height, rounded toward zero: the change
/// times the track's height is less than one track height away from the
/// movement times the content's height, and equal to it where the division
/// is exact.
pub proof fn lemma_handle_drag_scales(p: Prepared, content: Vec2, arbiter: Arbiter, input: Input)
    requires
        p.spec_handle_dragged(content, arbiter, input),
        p.inner_height() > 0,
    ensures
        p.spec_offset_resolved(content, arbiter, input) - p.spec_offset_after_wheel(
            content,
            arbiter,
            input,
        ) == div_toward_zero(input.pointer_delta.y * content.y, p.inner_height()),
        -p.inner_height() < input.pointer_delta.y * content.y - (p.spec_offset_resolved(
            content,
            arbiter,
            input,
        ) - p.spec_offset_after_wheel(content, arbiter, input)) * p.inner_height()
            < p.inner_height(),
        (input.pointer_delta.y * content.y) % p.inner_height() == 0 ==> (p.spec_offset_resolved(
            content,
            arbiter,
            input,
        ) - p.spec_offset_after_wheel(content, arbiter, input)) * p.inner_height()
            == input.pointer_delta.y * content.y,
{
    let a = input.pointer_delta.y * content.y;
    let b = p.inner_height();
    let q = div_toward_zero(a, b);
    lemma_div_toward_zero_bounds(a, b);
    if a % b == 0 {
        let k = a / b;
        lemma_fundamental_div_mod(a, b);
        assert(a == k * b) by (nonlinear_arith)
            requires
                a == b * k + 0,
        ;
        assert(k == q) by (nonlinear_arith)
            requires
                b > 0,
                a == k * b,
                a >= 0 ==> q * b <= a < q * b + b,
                a <= 0 ==> q * b - b < a <= q * b,
        ;
    }
}

/// Content that is no taller than the viewport is not scrollable: unless the
/// scrollbar is always shown, it is not wanted in such a frame, the state
/// says so, and nothing is drawn for it once the last frame did not want it
/// either.
pub proof fn lemma_fitting_content_hides_scrollbar(
    p: Prepared,
    content: Vec2,
    arbiter: Arbiter,
    input: Input,
    style: Style,
)
    requires
        content.y <= p.inner_height(),
        !p.always_show_scroll,
    ensures
        !p.spec_scrollable(content),
        !p.spec_show_this_frame(content),
        !p.spec_final_state(content, arbiter, input).visible,
        !p.state.visible ==> p.spec_commands(content, arbiter, input, style)
            == Seq::<DrawCommand>::empty(),
{
}

/// A scrollbar that is always shown, or one over content taller than the
/// viewport, is drawn as a track and a handle, and the state says that it
/// was wanted.
pub proof fn lemma_wanted_scrollbar_is_drawn(
    p: Prepared,
    content: Vec2,
    arbiter: Arbiter,
    input: Input,
    style: Style,
)
    requires
        p.always_show_scroll || content.y > p.inner_height(),
    ensures
        p.spec_rendered(content),
        p.spec_commands(content, arbiter, input, style).len() == 2,
        p.spec_final_state(content, arbiter, input).visible,
{
}

/// What is kept under a key is what is read back under it, and keeping it
/// changes what is read under no other key.
pub proof fn lemma_store_round_trip(
    before: StateStore,
    after: StateStore,
    key: u64,
    state: ScrollState,
)
    requires
        after@ == before@.insert(key, state),
    ensures
        after.spec_get(key) == state,
        forall|other: u64| other != key ==> after.spec_get(other) == before.spec_get(other),
{
}

/// The state that one frame leaves for an area is the state with which the
/// area's next frame opens, as long as nothing else wrote to the store in
/// between.
pub proof fn lemma_next_frame_reads_state(
    p: Prepared,
    before: Ui,
    after: Ui,
    shared_before: Context,
    shared_after: Context,
    area: ScrollArea,
    next_ui: Ui,
    next: Prepared,
)
    requires
        p.wf(),
        finished(p, before, after, shared_before, shared_after),
        area.prepared_by(next_ui, shared_after.store, p.id, next),
    ensures
        next.state == p.spec_final_state(
            p.content_ui.bounds.spec_size(),
            shared_before.arbiter,
            shared_before.input,
        ),
        0 <= next.state.offset.y <= spec_max(
            0,
            p.content_ui.bounds.spec_height() - p.inner_height(),
        ),
{
    lemma_store_round_trip(
        shared_before.store,
        shared_after.store,
        p.id,
        p.spec_final_state(
            p.content_ui.bounds.spec_size(),
            shared_before.arbiter,
            shared_before.input,
        ),
    );
}

/// A region that owns the pointer when the frame is finished keeps it: the
/// area claims the pointer only where nobody owns it.
pub proof fn lemma_owner_is_kept(p: Prepared, content: Vec2, arbiter: Arbiter, input: Input)
    requires
        arbiter.active.is_some(),
    ensures
        p.spec_arbiter_final(content, arbiter, input) == arbiter,
{
}

/// Without a press the area claims nothing.
pub proof fn lemma_no_press_no_claim(p: Prepared, content: Vec2, arbiter: Arbiter, input: Input)
    requires
        !input.pressed,
    ensures
        p.spec_arbiter_final(content, arbiter, input) == arbiter,
{
}

/// A later point of the content lies no higher on the track than an earlier
/// one, and both lie on the track.
pub proof fn lemma_to_track_ordered(p: Prepared, content: Vec2, y1: int, y2: int)
    requires
        y1 <= y2,
        p.inner_rect.min.y <= p.inner_rect.max.y,
    ensures
        p.inner_rect.min.y <= p.spec_to_track(content, y1) <= p.spec_to_track(content, y2)
            <= p.inner_rect.max.y,
{
    let top = p.inner_rect.min.y as int;
    let bottom = p.inner_rect.max.y as int;
    let c = content.y as int;
    if c > 0 {
        if 0 < y1 < c {
            lemma_remap_inside(y1, 0, c, top, bottom);
        }
        if 0 < y2 < c {
            lemma_remap_inside(y2, 0, c, top, bottom);
        }
        if 0 < y1 && y2 < c {
            let d = bottom - top;
            assert(0 <= y1 * d <= y2 * d) by (nonlinear_arith)
                requires
                    0 < y1 <= y2,
                    d >= 0,
            ;
            lemma_div_is_ordered(y1 * d, y2 * d, c);
        }
    }
}

/// The handle lies on the track, its top edge no lower than its bottom edge,
/// wherever the viewport has a height that is not negative.
pub proof fn lemma_handle_stays_on_track(p: Prepared, content: Vec2, offset: int)
    requires
        p.inner_height() >= 0,
    ensures
        p.inner_rect.min.y <= p.spec_handle(content, offset).min.y <= p.spec_handle(
            content,
            offset,
        ).max.y <= p.inner_rect.max.y,
{
    lemma_to_track_ordered(p, content, offset, offset + p.inner_height());
}

} // verus!
