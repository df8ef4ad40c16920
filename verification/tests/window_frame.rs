use fexc::geometry::Pos;
use fexc::geometry::Rect;
use fexc::window_frame::CursorIcon;
use fexc::window_frame::FrameCommand;
use fexc::window_frame::HostInput;
use fexc::window_frame::ResizeDirection;
use fexc::window_frame::WindowFrame;
use fexc::window_frame::content_rect;
use fexc::window_frame::cursor_icon_for;
use fexc::window_frame::resize_direction;
use fexc::window_frame::title_bar_rect;

fn idle_input() -> HostInput {
    HostInput {
        maximized: false,
        pointer: None,
        primary_down: false,
        title_double_clicked: false,
        title_drag_started: false,
        close_clicked: false,
        maximize_clicked: false,
        minimize_clicked: false,
    }
}

fn app_rect() -> Rect {
    Rect::new(0, 0, 640, 360)
}

#[test]
fn interior_pointer_resizes_nothing() {
    let app = app_rect();
    for &(x, y) in &[(12, 100), (320, 180), (628, 200), (320, 348), (12, 48)] {
        assert_eq!(resize_direction(Pos { x, y }, app), None);
    }
    let mut input = idle_input();
    input.pointer = Some(Pos { x: 320, y: 180 });
    input.primary_down = true;
    let out = WindowFrame::new("t").show(&input, app);
    assert_eq!(out.cursor, None);
    assert_eq!(out.commands, vec![]);
}

#[test]
fn south_east_corner_beats_single_edges() {
    let app = app_rect();
    let pos = Pos { x: 635, y: 355 };
    assert_eq!(resize_direction(pos, app), Some(ResizeDirection::SouthEast));
    assert_eq!(cursor_icon_for(ResizeDirection::SouthEast), CursorIcon::ResizeNwSe);

    let mut input = idle_input();
    input.pointer = Some(pos);
    input.primary_down = true;
    let out = WindowFrame::new("t").show(&input, app);
    assert_eq!(out.cursor, Some(CursorIcon::ResizeNwSe));
    assert_eq!(out.commands, vec![FrameCommand::BeginResize(ResizeDirection::SouthEast)]);
}

#[test]
fn south_west_corner_beats_single_edges() {
    let app = app_rect();
    assert_eq!(
        resize_direction(Pos { x: 5, y: 355 }, app),
        Some(ResizeDirection::SouthWest)
    );
    assert_eq!(cursor_icon_for(ResizeDirection::SouthWest), CursorIcon::ResizeNeSw);
}

#[test]
fn west_edge_below_title_bar() {
    let app = app_rect();
    assert_eq!(resize_direction(Pos { x: 5, y: 200 }, app), Some(ResizeDirection::West));
    assert_eq!(resize_direction(Pos { x: 11, y: 37 }, app), Some(ResizeDirection::West));
    assert_eq!(cursor_icon_for(ResizeDirection::West), CursorIcon::ResizeEast);
}

#[test]
fn east_edge_below_title_bar() {
    let app = app_rect();
    assert_eq!(resize_direction(Pos { x: 633, y: 200 }, app), Some(ResizeDirection::East));
    assert_eq!(cursor_icon_for(ResizeDirection::East), CursorIcon::ResizeEast);
}

#[test]
fn title_band_blocks_side_edges() {
    let app = app_rect();
    // Within the resize margin of the left or right edge, but at or above
    // the bottom of the title bar: the title bar takes precedence.
    assert_eq!(resize_direction(Pos { x: 5, y: 36 }, app), None);
    assert_eq!(resize_direction(Pos { x: 5, y: 10 }, app), None);
    assert_eq!(resize_direction(Pos { x: 635, y: 20 }, app), None);
}

#[test]
fn no_pointer_means_no_resize() {
    let mut input = idle_input();
    input.primary_down = true;
    let out = WindowFrame::new("t").show(&input, app_rect());
    assert_eq!(out.cursor, None);
    assert_eq!(out.commands, vec![]);
}

#[test]
fn hover_sets_cursor_without_press() {
    let mut input = idle_input();
    input.pointer = Some(Pos { x: 5, y: 200 });
    let out = WindowFrame::new("t").show(&input, app_rect());
    assert_eq!(out.cursor, Some(CursorIcon::ResizeEast));
    assert_eq!(out.commands, vec![]);
}

#[test]
fn maximized_never_resizes() {
    let mut input = idle_input();
    input.maximized = true;
    input.primary_down = true;
    for &(x, y) in &[(635, 355), (5, 200), (320, 355), (5, 355)] {
        input.pointer = Some(Pos { x, y });
        let out = WindowFrame::new("t").show(&input, app_rect());
        assert_eq!(out.cursor, None);
        assert_eq!(out.commands, vec![]);
        assert!(!out.border_stroke);
    }
}

#[test]
fn border_stroke_follows_maximize_state() {
    let input = idle_input();
    let out = WindowFrame::new("t").show(&input, app_rect());
    assert!(out.border_stroke);
    let mut maxed = idle_input();
    maxed.maximized = true;
    let out2 = WindowFrame::new("t").show(&maxed, app_rect());
    assert!(!out2.border_stroke);
}

#[test]
fn double_click_maximizes_a_restored_window() {
    let mut input = idle_input();
    input.title_double_clicked = true;
    let out = WindowFrame::new("t").show(&input, app_rect());
    assert_eq!(out.commands, vec![FrameCommand::SetMaximized(true)]);
}

#[test]
fn double_click_restores_a_maximized_window() {
    let mut input = idle_input();
    input.maximized = true;
    input.title_double_clicked = true;
    let out = WindowFrame::new("t").show(&input, app_rect());
    assert_eq!(out.commands, vec![FrameCommand::SetMaximized(false)]);
}

#[test]
fn title_drag_hands_off_without_resizing() {
    let mut input = idle_input();
    // Drag starts on the title bar while the pointer is also within the
    // resize margin of the left edge: only the drag hand-off is issued.
    input.pointer = Some(Pos { x: 5, y: 20 });
    input.primary_down = true;
    input.title_drag_started = true;
    let out = WindowFrame::new("t").show(&input, app_rect());
    assert_eq!(out.commands, vec![FrameCommand::StartDrag]);
}

#[test]
fn close_button_closes_once() {
    let mut input = idle_input();
    input.close_clicked = true;
    let out = WindowFrame::new("t").show(&input, app_rect());
    assert_eq!(out.commands, vec![FrameCommand::Close]);
}

#[test]
fn minimize_button_minimizes_once() {
    let mut input = idle_input();
    input.minimize_clicked = true;
    let out = WindowFrame::new("t").show(&input, app_rect());
    assert_eq!(out.commands, vec![FrameCommand::SetMinimized(true)]);
}

#[test]
fn maximize_button_toggles_both_ways() {
    let mut input = idle_input();
    input.maximize_clicked = true;
    let out = WindowFrame::new("t").show(&input, app_rect());
    assert_eq!(out.commands, vec![FrameCommand::SetMaximized(true)]);

    input.maximized = true;
    let out2 = WindowFrame::new("t").show(&input, app_rect());
    assert_eq!(out2.commands, vec![FrameCommand::SetMaximized(false)]);
}

#[test]
fn commands_keep_issue_order() {
    let mut input = idle_input();
    input.pointer = Some(Pos { x: 635, y: 355 });
    input.primary_down = true;
    input.title_double_clicked = true;
    input.title_drag_started = true;
    input.close_clicked = true;
    input.maximize_clicked = true;
    input.minimize_clicked = true;
    let out = WindowFrame::new("t").show(&input, app_rect());
    assert_eq!(
        out.commands,
        vec![
            FrameCommand::BeginResize(ResizeDirection::SouthEast),
            FrameCommand::SetMaximized(true),
            FrameCommand::StartDrag,
            FrameCommand::Close,
            FrameCommand::SetMaximized(true),
            FrameCommand::SetMinimized(true),
        ]
    );
}

#[test]
fn title_bar_is_the_top_strip() {
    let bar = title_bar_rect(app_rect());
    assert_eq!(bar, Rect::new(0, 0, 640, 36));
    let bar2 = title_bar_rect(Rect::new(100, 50, 1124, 770));
    assert_eq!(bar2, Rect::new(100, 50, 1124, 86));
}

#[test]
fn content_rect_dimensions() {
    // Minimum viable window size.
    let c = content_rect(Rect::new(0, 0, 640, 360));
    assert_eq!(c, Rect::new(4, 40, 636, 356));
    assert_eq!(c.bottom - c.top, 360 - 36 - 8);
    assert_eq!(c.right - c.left, 640 - 8);

    let c2 = content_rect(Rect::new(0, 0, 1024, 720));
    assert_eq!(c2.bottom - c2.top, 720 - 36 - 8);
    assert_eq!(c2.right - c2.left, 1024 - 8);

    let c3 = content_rect(Rect::new(-200, 100, 1720, 1180));
    assert_eq!(c3.bottom - c3.top, 1080 - 36 - 8);
    assert_eq!(c3.right - c3.left, 1920 - 8);
}

#[test]
fn show_passes_title_through() {
    let frame = WindowFrame::new("Fexc v0.1.0");
    let out = frame.show(&idle_input(), app_rect());
    assert_eq!(out.title, "Fexc v0.1.0");
}
