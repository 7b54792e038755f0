use scroll_area::area::Context;
use scroll_area::area::Prepared;
use scroll_area::area::ScrollArea;
use scroll_area::draw::Color;
use scroll_area::draw::DrawCommand;
use scroll_area::draw::Outline;
use scroll_area::draw::Style;
use scroll_area::draw::Visuals;
use scroll_area::geom::Rect;
use scroll_area::geom::Vec2;
use scroll_area::interact::Arbiter;
use scroll_area::interact::Id;
use scroll_area::interact::Input;
use scroll_area::interact::Part;
use scroll_area::layout::Ui;
use scroll_area::state::ScrollState;
use scroll_area::state::StateStore;

const KEY: u64 = 7;

fn rect(x0: i64, y0: i64, x1: i64, y1: i64) -> Rect {
    Rect { min: Vec2 { x: x0, y: y0 }, max: Vec2 { x: x1, y: y1 } }
}

fn gray(v: u8) -> Color {
    Color { r: v, g: v, b: v, a: 255 }
}

fn style() -> Style {
    Style {
        dark_bg: gray(10),
        idle: Visuals { fill: gray(60), outline: None },
        hovered: Visuals { fill: gray(120), outline: Some(Outline { width: 1, color: gray(200) }) },
        active: Visuals { fill: gray(180), outline: Some(Outline { width: 2, color: gray(255) }) },
    }
}

fn quiet_input() -> Input {
    Input {
        pointer: Some(Vec2 { x: 10, y: 10 }),
        pointer_delta: Vec2 { x: 0, y: 0 },
        wheel_delta: Vec2 { x: 0, y: 0 },
        pressed: false,
    }
}

fn wheel_input(delta: i64) -> Input {
    Input { wheel_delta: Vec2 { x: 0, y: delta }, ..quiet_input() }
}

fn context(input: Input) -> Context {
    Context { store: StateStore::new(), arbiter: Arbiter::new(), input, style: style() }
}

fn parent() -> Ui {
    Ui::new(rect(0, 0, 300, 600), rect(0, 0, 300, 600))
}

/// One frame over content of the given size. Returns the parent context.
fn frame(area: ScrollArea, shared: &mut Context, content: Vec2) -> Ui {
    let mut ui = parent();
    let mut prepared: Prepared = area.prepare(&ui, shared, KEY);
    prepared.content_ui.reserve_space(content);
    ScrollArea::finish(&mut ui, shared, prepared);
    ui
}

fn tall() -> Vec2 {
    Vec2 { x: 100, y: 1000 }
}

#[test]
fn wheel_scrolls_and_stops_at_both_ends() {
    let area = ScrollArea::default();
    let mut shared = context(wheel_input(-50));
    frame(area, &mut shared, tall());
    assert_eq!(shared.store.get(KEY).offset.y, 50);

    shared.input = wheel_input(-5000);
    frame(area, &mut shared, tall());
    assert_eq!(shared.store.get(KEY).offset.y, 800);

    shared.input = wheel_input(5000);
    frame(area, &mut shared, tall());
    assert_eq!(shared.store.get(KEY).offset.y, 0);
}

#[test]
fn positive_wheel_delta_lowers_the_offset() {
    let area = ScrollArea::default();
    let mut shared = context(wheel_input(50));
    shared.store.set(KEY, ScrollState { offset: Vec2 { x: 0, y: 100 }, visible: true });
    frame(area, &mut shared, tall());
    assert_eq!(shared.store.get(KEY).offset.y, 50);
}

#[test]
fn wheel_overshoot_stops_at_zero() {
    let area = ScrollArea::default();
    let mut shared = context(wheel_input(2000));
    frame(area, &mut shared, tall());
    assert_eq!(shared.store.get(KEY).offset.y, 0);
}

#[test]
fn wheel_overshoot_on_fitting_content_stops_at_zero() {
    let area = ScrollArea::default();
    let mut shared = context(wheel_input(-2000));
    frame(area, &mut shared, Vec2 { x: 100, y: 50 });
    assert_eq!(shared.store.get(KEY).offset.y, 0);
}

#[test]
fn wheel_overshoot_downward_stops_at_the_end() {
    let area = ScrollArea::default();
    let mut shared = context(wheel_input(-2000));
    frame(area, &mut shared, tall());
    assert_eq!(shared.store.get(KEY).offset.y, 800);
}

#[test]
fn wheel_is_ignored_away_from_the_area() {
    let area = ScrollArea::default();
    let mut input = wheel_input(-50);
    input.pointer = Some(Vec2 { x: 10, y: 400 });
    let mut shared = context(input);
    frame(area, &mut shared, tall());
    assert_eq!(shared.store.get(KEY).offset.y, 0);

    shared.input.pointer = None;
    frame(area, &mut shared, tall());
    assert_eq!(shared.store.get(KEY).offset.y, 0);
}

#[test]
fn wheel_is_ignored_while_another_region_owns_the_pointer() {
    let area = ScrollArea::default();
    let mut shared = context(wheel_input(-50));
    shared.arbiter.active = Some(Id { key: 99, part: Part::Widget });
    frame(area, &mut shared, tall());
    assert_eq!(shared.store.get(KEY).offset.y, 0);
    assert_eq!(shared.arbiter.active, Some(Id { key: 99, part: Part::Widget }));
}

#[test]
fn offset_stays_in_range_over_many_frames() {
    let area = ScrollArea::default();
    let mut shared = context(quiet_input());
    let deltas: [i64; 8] = [-30, 700, -100000, 12, -799, 100000, -1, 1];
    for (i, d) in deltas.iter().enumerate() {
        shared.input = wheel_input(*d);
        shared.input.pointer_delta = Vec2 { x: 0, y: 13 - 7 * (i as i64) };
        shared.input.pressed = i % 3 == 0;
        shared.input.pointer = Some(Vec2 { x: 40 * (i as i64), y: 25 * (i as i64) });
        frame(area, &mut shared, tall());
        let y = shared.store.get(KEY).offset.y;
        assert!(0 <= y && y <= 800, "offset {} after frame {}", y, i);
        shared.arbiter = Arbiter::new();
    }
}

#[test]
fn second_quiet_frame_keeps_the_offset() {
    let area = ScrollArea::default();
    let mut shared = context(wheel_input(-333));
    frame(area, &mut shared, tall());
    let first = shared.store.get(KEY);
    assert_eq!(first.offset.y, 333);
    shared.input = quiet_input();
    frame(area, &mut shared, tall());
    assert_eq!(shared.store.get(KEY), first);
    frame(area, &mut shared, tall());
    assert_eq!(shared.store.get(KEY), first);
}

#[test]
fn dragging_the_content_moves_it_with_the_pointer() {
    let area = ScrollArea::default();
    let mut input = quiet_input();
    input.pointer_delta = Vec2 { x: 0, y: -30 };
    let mut shared = context(input);
    shared.store.set(KEY, ScrollState { offset: Vec2 { x: 0, y: 100 }, visible: true });
    shared.arbiter.active = Some(Id { key: KEY, part: Part::Area });
    frame(area, &mut shared, tall());
    assert_eq!(shared.store.get(KEY).offset.y, 130);
}

#[test]
fn pressing_the_content_claims_the_pointer_for_the_area() {
    let area = ScrollArea::default();
    let mut input = quiet_input();
    input.pressed = true;
    input.pointer_delta = Vec2 { x: 0, y: -5 };
    let mut shared = context(input);
    frame(area, &mut shared, tall());
    assert_eq!(shared.arbiter.active, Some(Id { key: KEY, part: Part::Area }));
    assert_eq!(shared.store.get(KEY).offset.y, 5);
}

#[test]
fn fitting_content_is_never_registered_for_dragging() {
    let area = ScrollArea::default();
    let mut input = quiet_input();
    input.pressed = true;
    let mut shared = context(input);
    frame(area, &mut shared, Vec2 { x: 100, y: 200 });
    assert_eq!(shared.arbiter.active, None);
}

#[test]
fn dragging_the_handle_is_scaled_to_the_content() {
    let area = ScrollArea::default();
    let mut input = quiet_input();
    input.pointer = Some(Vec2 { x: 290, y: 50 });
    input.pointer_delta = Vec2 { x: 0, y: 10 };
    let mut shared = context(input);
    shared.store.set(KEY, ScrollState { offset: Vec2 { x: 0, y: 100 }, visible: true });
    shared.arbiter.active = Some(Id { key: KEY, part: Part::Vertical });
    frame(area, &mut shared, tall());
    assert_eq!(shared.store.get(KEY).offset.y, 150);
}

#[test]
fn handle_drag_rounds_toward_zero() {
    let area = ScrollArea::default();
    let mut input = quiet_input();
    input.pointer = Some(Vec2 { x: 290, y: 50 });
    input.pointer_delta = Vec2 { x: 0, y: -1 };
    let mut shared = context(input);
    shared.store.set(KEY, ScrollState { offset: Vec2 { x: 0, y: 100 }, visible: true });
    shared.arbiter.active = Some(Id { key: KEY, part: Part::Vertical });
    frame(area, &mut shared, Vec2 { x: 100, y: 1001 });
    assert_eq!(shared.store.get(KEY).offset.y, 95);

    shared.input.pointer_delta = Vec2 { x: 0, y: 1 };
    frame(area, &mut shared, Vec2 { x: 100, y: 1001 });
    assert_eq!(shared.store.get(KEY).offset.y, 100);
}

#[test]
fn handle_drag_needs_the_pointer_level_with_the_viewport() {
    let area = ScrollArea::default();
    let mut input = quiet_input();
    input.pointer = Some(Vec2 { x: 290, y: 201 });
    input.pointer_delta = Vec2 { x: 0, y: 10 };
    let mut shared = context(input);
    shared.store.set(KEY, ScrollState { offset: Vec2 { x: 0, y: 100 }, visible: true });
    shared.arbiter.active = Some(Id { key: KEY, part: Part::Vertical });
    frame(area, &mut shared, tall());
    assert_eq!(shared.store.get(KEY).offset.y, 100);
}

#[test]
fn pressing_the_track_centres_the_handle_at_the_pointer() {
    let area = ScrollArea::default();
    let mut input = quiet_input();
    input.pointer = Some(Vec2 { x: 290, y: 120 });
    input.pressed = true;
    let mut shared = context(input);
    shared.store.set(KEY, ScrollState { offset: Vec2 { x: 0, y: 0 }, visible: true });
    frame(area, &mut shared, tall());
    assert_eq!(shared.store.get(KEY).offset.y, 500);
    assert_eq!(shared.arbiter.active, Some(Id { key: KEY, part: Part::Vertical }));
}

#[test]
fn pressing_the_handle_claims_it_without_moving() {
    let area = ScrollArea::default();
    let mut input = quiet_input();
    input.pointer = Some(Vec2 { x: 290, y: 20 });
    input.pressed = true;
    let mut shared = context(input);
    shared.store.set(KEY, ScrollState { offset: Vec2 { x: 0, y: 0 }, visible: true });
    let ui = frame(area, &mut shared, tall());
    assert_eq!(shared.store.get(KEY).offset.y, 0);
    assert_eq!(shared.arbiter.active, Some(Id { key: KEY, part: Part::Vertical }));
    assert_eq!(
        ui.commands[1],
        DrawCommand::Rect {
            rect: rect(288, 2, 298, 38),
            corner_radius: 8,
            fill: Some(gray(180)),
            outline: Some(Outline { width: 2, color: gray(255) }),
        }
    );
}

#[test]
fn content_as_tall_as_the_viewport_shows_no_scrollbar() {
    let area = ScrollArea::default();
    let mut shared = context(quiet_input());
    let ui = frame(area, &mut shared, Vec2 { x: 100, y: 200 });
    assert_eq!(ui.commands.len(), 0);
    assert_eq!(shared.store.get(KEY), ScrollState { offset: Vec2 { x: 0, y: 0 }, visible: false });

    let ui = frame(area, &mut shared, Vec2 { x: 100, y: 201 });
    assert_eq!(ui.commands.len(), 2);
    assert!(shared.store.get(KEY).visible);
}

#[test]
fn always_shown_scrollbar_is_drawn_over_fitting_content() {
    let area = ScrollArea::default().always_show_scroll(true);
    let mut shared = context(quiet_input());
    let ui = frame(area, &mut shared, Vec2 { x: 100, y: 50 });
    assert_eq!(ui.commands.len(), 2);
    assert_eq!(shared.store.get(KEY), ScrollState { offset: Vec2 { x: 0, y: 0 }, visible: true });
}

#[test]
fn scrollbar_stays_for_one_frame_after_it_was_wanted() {
    let area = ScrollArea::default();
    let mut shared = context(quiet_input());
    frame(area, &mut shared, tall());
    assert!(shared.store.get(KEY).visible);
    let ui = frame(area, &mut shared, Vec2 { x: 100, y: 50 });
    assert_eq!(ui.commands.len(), 2);
    assert!(!shared.store.get(KEY).visible);
    let ui = frame(area, &mut shared, Vec2 { x: 100, y: 50 });
    assert_eq!(ui.commands.len(), 0);
}

#[test]
fn scrollbar_is_drawn_as_track_then_handle() {
    let area = ScrollArea::default();
    let mut shared = context(quiet_input());
    shared.store.set(KEY, ScrollState { offset: Vec2 { x: 0, y: 800 }, visible: true });
    let ui = frame(area, &mut shared, tall());
    assert_eq!(
        ui.commands,
        vec![
            DrawCommand::Rect {
                rect: rect(286, 0, 300, 200),
                corner_radius: 8,
                fill: Some(gray(10)),
                outline: None,
            },
            DrawCommand::Rect {
                rect: rect(288, 162, 298, 198),
                corner_radius: 8,
                fill: Some(gray(60)),
                outline: None,
            },
        ]
    );
}

#[test]
fn hovered_handle_takes_the_hovered_look() {
    let area = ScrollArea::default();
    let mut input = quiet_input();
    input.pointer = Some(Vec2 { x: 290, y: 180 });
    let mut shared = context(input);
    shared.store.set(KEY, ScrollState { offset: Vec2 { x: 0, y: 800 }, visible: true });
    let ui = frame(area, &mut shared, tall());
    assert_eq!(
        ui.commands[1],
        DrawCommand::Rect {
            rect: rect(288, 162, 298, 198),
            corner_radius: 8,
            fill: Some(gray(120)),
            outline: Some(Outline { width: 1, color: gray(200) }),
        }
    );
}

#[test]
fn first_scrollable_frame_draws_the_handle_at_the_new_offset() {
    let area = ScrollArea::default();
    let mut shared = context(wheel_input(-50));
    let ui = frame(area, &mut shared, tall());
    assert_eq!(
        ui.commands,
        vec![
            DrawCommand::Rect {
                rect: rect(302, 0, 300, 200),
                corner_radius: 0,
                fill: Some(gray(10)),
                outline: None,
            },
            DrawCommand::Rect {
                rect: rect(304, 12, 298, 48),
                corner_radius: 0,
                fill: Some(gray(60)),
                outline: None,
            },
        ]
    );
}

#[test]
fn content_is_drawn_before_the_scrollbar() {
    let area = ScrollArea::default();
    let mut shared = context(quiet_input());
    let mut ui = parent();
    let before = DrawCommand::Rect { rect: rect(0, 0, 1, 1), corner_radius: 0, fill: None, outline: None };
    let inside = DrawCommand::Rect { rect: rect(5, 5, 9, 9), corner_radius: 1, fill: Some(gray(1)), outline: None };
    ui.add_paint_cmd(before);
    let mut prepared = area.prepare(&ui, &shared, KEY);
    prepared.content_ui.reserve_space(tall());
    prepared.content_ui.add_paint_cmd(inside);
    ScrollArea::finish(&mut ui, &mut shared, prepared);
    assert_eq!(ui.commands.len(), 4);
    assert_eq!(ui.commands[0], before);
    assert_eq!(ui.commands[1], inside);
}

#[test]
fn finish_takes_the_outer_size_in_the_parent() {
    let area = ScrollArea::default();
    let mut shared = context(quiet_input());
    let ui = frame(area, &mut shared, tall());
    assert_eq!(ui.cursor, Vec2 { x: 0, y: 200 });
    assert_eq!(ui.bounds, rect(0, 0, 300, 200));
    assert_eq!(ui.available(), rect(0, 200, 300, 600));
}

#[test]
fn wide_content_widens_the_area() {
    let area = ScrollArea::default();
    let mut shared = context(quiet_input());
    let ui = frame(area, &mut shared, Vec2 { x: 450, y: 1000 });
    assert_eq!(ui.bounds, rect(0, 0, 450, 200));
    assert_eq!(
        ui.commands[0],
        DrawCommand::Rect {
            rect: rect(452, 0, 450, 200),
            corner_radius: 0,
            fill: Some(gray(10)),
            outline: None,
        }
    );
}

#[test]
fn state_written_by_one_frame_is_read_by_the_next() {
    let area = ScrollArea::default();
    let mut shared = context(wheel_input(-120));
    frame(area, &mut shared, tall());
    let written = shared.store.get(KEY);
    assert_eq!(written, ScrollState { offset: Vec2 { x: 0, y: 120 }, visible: true });
    let ui = parent();
    let next = area.prepare(&ui, &shared, KEY);
    assert_eq!(next.state, written);
    let other = area.prepare(&ui, &shared, KEY + 1);
    assert_eq!(other.state, ScrollState::default());
}

#[test]
fn show_runs_the_whole_frame() {
    let area = ScrollArea::default();
    let mut shared = context(wheel_input(-50));
    let mut ui = parent();
    let answer = area.show(&mut ui, &mut shared, KEY, |mut child: Ui| {
        child.reserve_space(Vec2 { x: 100, y: 1000 });
        (child, 42)
    });
    assert_eq!(answer, 42);
    assert_eq!(shared.store.get(KEY), ScrollState { offset: Vec2 { x: 0, y: 50 }, visible: true });
    assert_eq!(ui.commands.len(), 2);
    assert_eq!(ui.cursor, Vec2 { x: 0, y: 200 });
}

#[test]
fn empty_content_puts_the_handle_at_the_top_of_the_track() {
    let area = ScrollArea::default().always_show_scroll(true).auto_hide_scroll(false);
    let mut shared = context(wheel_input(-40));
    let ui = frame(area, &mut shared, Vec2 { x: 0, y: 0 });
    assert_eq!(shared.store.get(KEY), ScrollState { offset: Vec2 { x: 0, y: 0 }, visible: true });
    assert_eq!(
        ui.commands,
        vec![
            DrawCommand::Rect {
                rect: rect(286, 0, 300, 200),
                corner_radius: 8,
                fill: Some(gray(10)),
                outline: None,
            },
            DrawCommand::Rect {
                rect: rect(288, 2, 298, -2),
                corner_radius: 8,
                fill: Some(gray(60)),
                outline: None,
            },
        ]
    );
}

#[test]
fn handle_drag_on_a_track_without_height_moves_nothing() {
    let area = ScrollArea::default();
    let mut input = quiet_input();
    input.pointer = Some(Vec2 { x: 290, y: 0 });
    input.pointer_delta = Vec2 { x: 0, y: 10 };
    let mut shared = context(input);
    shared.store.set(KEY, ScrollState { offset: Vec2 { x: 0, y: 100 }, visible: true });
    shared.arbiter.active = Some(Id { key: KEY, part: Part::Vertical });
    let mut ui = Ui::new(rect(0, 0, 300, 0), rect(0, 0, 300, 600));
    let mut prepared = area.prepare(&ui, &shared, KEY);
    assert_eq!(prepared.inner_rect, rect(0, 0, 284, 0));
    prepared.content_ui.reserve_space(tall());
    ScrollArea::finish(&mut ui, &mut shared, prepared);
    assert_eq!(shared.store.get(KEY).offset.y, 100);
}

#[test]
fn offset_beyond_shrunken_content_comes_back_into_range() {
    let area = ScrollArea::default();
    let mut shared = context(quiet_input());
    shared.store.set(KEY, ScrollState { offset: Vec2 { x: 0, y: 800 }, visible: true });
    frame(area, &mut shared, Vec2 { x: 100, y: 500 });
    assert_eq!(shared.store.get(KEY).offset.y, 300);
    frame(area, &mut shared, Vec2 { x: 100, y: 100 });
    assert_eq!(shared.store.get(KEY).offset.y, 0);
}
