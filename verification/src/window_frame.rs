//! The custom window frame: title bar, resize-edge detection, and the
//! window commands they issue.
//!
//! The frame is stateless between render passes. Each pass the host surface
//! reports its state (pointer position, button state, maximize flag, and
//! which interactive regions fired); [`WindowFrame::show`] maps that input
//! and the available panel rectangle to the commands to issue, the cursor
//! icon to set, and the derived title-bar and content rectangles. The
//! windowing layer around the library performs the rendering and applies
//! the commands.

use vstd::prelude::*;

use crate::geometry::Pos;
use crate::geometry::Rect;

verus! {

/// Height of the title-bar strip at the top of the frame, in logical units.
pub const TITLE_BAR_HEIGHT: i64 = 36;

/// Distance from an edge within which the pointer counts as on that edge.
pub const RESIZE_MARGIN: i64 = 12;

/// Inset between the title bar / frame edges and the content region.
pub const CONTENT_MARGIN: i64 = 4;

/// A resize handle the pointer can grab.
///
/// The top strip is reserved for title-bar dragging, so no north-facing
/// direction is ever produced.
#[derive(Clone, Copy, Debug, PartialEq, Eq, Structural)]
pub enum ResizeDirection {
    West,
    East,
    SouthWest,
    SouthEast,
}

/// Cursor shape shown while the pointer hovers over a resize edge.
#[derive(Clone, Copy, Debug, PartialEq, Eq, Structural)]
pub enum CursorIcon {
    /// Diagonal cursor for the south-east corner.
    ResizeNwSe,
    /// Diagonal cursor for the south-west corner.
    ResizeNeSw,
    /// Horizontal cursor for the plain west and east edges.
    ResizeEast,
}

/// A one-way command issued to the host windowing surface.
#[derive(Clone, Copy, Debug, PartialEq, Eq, Structural)]
pub enum FrameCommand {
    /// Start an OS-native resize interaction in the given direction.
    BeginResize(ResizeDirection),
    /// Maximize or restore the window.
    SetMaximized(bool),
    /// Hand window movement over to the host's native move interaction.
    StartDrag,
    /// Close the window.
    Close,
    /// Minimize the window.
    SetMinimized(bool),
}

/// The pointer is within [`RESIZE_MARGIN`] of coordinate `edge`.
pub open spec fn near_edge(coord: int, edge: int) -> bool {
    -(RESIZE_MARGIN as int) < coord - edge < RESIZE_MARGIN as int
}

/// The pointer grabs the west edge: close to it horizontally and below the
/// title-bar strip.
pub open spec fn west_edge_hot(pos: Pos, app: Rect) -> bool {
    near_edge(pos.x as int, app.left as int) && pos.y > app.top + TITLE_BAR_HEIGHT
}

/// The pointer grabs the east edge: close to it horizontally and below the
/// title-bar strip.
pub open spec fn east_edge_hot(pos: Pos, app: Rect) -> bool {
    near_edge(pos.x as int, app.right as int) && pos.y > app.top + TITLE_BAR_HEIGHT
}

/// The pointer grabs the south edge. The title-bar strip does not block
/// the south edge, so very short windows remain resizable at the bottom.
pub open spec fn south_edge_hot(pos: Pos, app: Rect) -> bool {
    near_edge(pos.y as int, app.bottom as int)
}

/// The resize direction determined for a pointer position, corners first:
/// south-east, then south-west, then the plain west and east edges.
pub open spec fn spec_resize_direction(pos: Pos, app: Rect) -> Option<ResizeDirection> {
    if east_edge_hot(pos, app) && south_edge_hot(pos, app) {
        Some(ResizeDirection::SouthEast)
    } else if west_edge_hot(pos, app) && south_edge_hot(pos, app) {
        Some(ResizeDirection::SouthWest)
    } else if west_edge_hot(pos, app) {
        Some(ResizeDirection::West)
    } else if east_edge_hot(pos, app) {
        Some(ResizeDirection::East)
    } else {
        None
    }
}

/// Decide which resize handle, if any, the pointer is on.
pub fn resize_direction(pos: Pos, app: Rect) -> (r: Option<ResizeDirection>)
    requires
        pos.wf(),
        app.wf(),
    ensures
        r == spec_resize_direction(pos, app),
{
    let below_title_bar = pos.y > app.top + TITLE_BAR_HEIGHT;
    let dx_left = pos.x - app.left;
    let dx_right = pos.x - app.right;
    let dy_bottom = pos.y - app.bottom;

    let left = -RESIZE_MARGIN < dx_left && dx_left < RESIZE_MARGIN && below_title_bar;
    let right = -RESIZE_MARGIN < dx_right && dx_right < RESIZE_MARGIN && below_title_bar;
    let bottom = -RESIZE_MARGIN < dy_bottom && dy_bottom < RESIZE_MARGIN;

    if right && bottom {
        Some(ResizeDirection::SouthEast)
    } else if left && bottom {
        Some(ResizeDirection::SouthWest)
    } else if left {
        Some(ResizeDirection::West)
    } else if right {
        Some(ResizeDirection::East)
    } else {
        None
    }
}

/// The cursor shown for a resize handle: diagonal on the corners, the
/// horizontal resize cursor on the plain west and east edges.
pub open spec fn spec_cursor_icon(dir: ResizeDirection) -> CursorIcon {
    match dir {
        ResizeDirection::SouthEast => CursorIcon::ResizeNwSe,
        ResizeDirection::SouthWest => CursorIcon::ResizeNeSw,
        ResizeDirection::West => CursorIcon::ResizeEast,
        ResizeDirection::East => CursorIcon::ResizeEast,
    }
}

/// Map a resize handle to the cursor icon shown over it.
pub fn cursor_icon_for(dir: ResizeDirection) -> (c: CursorIcon)
    ensures
        c == spec_cursor_icon(dir),
{
    match dir {
        ResizeDirection::SouthEast => CursorIcon::ResizeNwSe,
        ResizeDirection::SouthWest => CursorIcon::ResizeNeSw,
        ResizeDirection::West => CursorIcon::ResizeEast,
        ResizeDirection::East => CursorIcon::ResizeEast,
    }
}

/// The title bar is the top strip of the frame, [`TITLE_BAR_HEIGHT`] tall.
pub open spec fn spec_title_bar_rect(app: Rect) -> Rect {
    Rect {
        left: app.left,
        top: app.top,
        right: app.right,
        bottom: (app.top + TITLE_BAR_HEIGHT) as i64,
    }
}

/// Compute the title-bar strip of a frame rectangle.
pub fn title_bar_rect(app: Rect) -> (r: Rect)
    requires
        app.wf(),
    ensures
        r == spec_title_bar_rect(app),
        r.height() == TITLE_BAR_HEIGHT,
        r.width() == app.width(),
{
    Rect { left: app.left, top: app.top, right: app.right, bottom: app.top + TITLE_BAR_HEIGHT }
}

/// The content region: the frame below the title bar, inset by
/// [`CONTENT_MARGIN`] on all sides.
pub open spec fn spec_content_rect(app: Rect) -> Rect {
    Rect {
        left: (app.left + CONTENT_MARGIN) as i64,
        top: (app.top + TITLE_BAR_HEIGHT + CONTENT_MARGIN) as i64,
        right: (app.right - CONTENT_MARGIN) as i64,
        bottom: (app.bottom - CONTENT_MARGIN) as i64,
    }
}

/// Compute the content region of a frame rectangle.
///
/// Its height is the frame height minus the title bar and the top and
/// bottom insets; its width is the frame width minus the two side insets.
pub fn content_rect(app: Rect) -> (r: Rect)
    requires
        app.wf(),
    ensures
        r == spec_content_rect(app),
        r.height() == app.height() - TITLE_BAR_HEIGHT - 2 * CONTENT_MARGIN,
        r.width() == app.width() - 2 * CONTENT_MARGIN,
{
    Rect {
        left: app.left + CONTENT_MARGIN,
        top: app.top + TITLE_BAR_HEIGHT + CONTENT_MARGIN,
        right: app.right - CONTENT_MARGIN,
        bottom: app.bottom - CONTENT_MARGIN,
    }
}

/// Everything the host surface reports for one render pass.
///
/// A missing pointer position, an idle button, or a region that did not
/// fire are all ordinary states, not errors.
#[derive(Clone, Copy, Debug)]
pub struct HostInput {
    /// Whether the window is currently maximized.
    pub maximized: bool,
    /// Current pointer hover position, if any.
    pub pointer: Option<Pos>,
    /// Whether the primary pointer button is held down.
    pub primary_down: bool,
    /// The title-bar region was double-clicked this pass.
    pub title_double_clicked: bool,
    /// A primary-button drag started on the title-bar region this pass.
    pub title_drag_started: bool,
    /// The close button was clicked this pass.
    pub close_clicked: bool,
    /// The maximize/restore button was clicked this pass.
    pub maximize_clicked: bool,
    /// The minimize button was clicked this pass.
    pub minimize_clicked: bool,
}

impl HostInput {
    /// The reported pointer position, if any, is inside the coordinate band.
    pub open spec fn wf(self) -> bool {
        match self.pointer {
            Some(p) => p.wf(),
            None => true,
        }
    }
}

/// The resize handle that is active this pass: none while maximized (a
/// maximized window cannot be resized by dragging) or while no pointer
/// position is reported.
pub open spec fn spec_active_resize(input: HostInput, app: Rect) -> Option<ResizeDirection> {
    if input.maximized {
        None
    } else {
        match input.pointer {
            Some(p) => spec_resize_direction(p, app),
            None => None,
        }
    }
}

/// The cursor icon set this pass: the resize cursor of the active handle,
/// if there is one.
pub open spec fn spec_cursor(input: HostInput, app: Rect) -> Option<CursorIcon> {
    match spec_active_resize(input, app) {
        Some(dir) => Some(spec_cursor_icon(dir)),
        None => None,
    }
}

/// The commands one render pass issues to the host surface, in order:
/// the level-triggered resize start, then the title-bar reactions
/// (double-click toggle, drag start), then the three window-control
/// buttons (close, maximize/restore toggle, minimize).
pub open spec fn spec_commands(input: HostInput, app: Rect) -> Seq<FrameCommand> {
    let resize = match spec_active_resize(input, app) {
        Some(dir) => if input.primary_down {
            seq![FrameCommand::BeginResize(dir)]
        } else {
            Seq::empty()
        },
        None => Seq::empty(),
    };
    let toggle = if input.title_double_clicked {
        seq![FrameCommand::SetMaximized(!input.maximized)]
    } else {
        Seq::empty()
    };
    let drag = if input.title_drag_started {
        seq![FrameCommand::StartDrag]
    } else {
        Seq::empty()
    };
    let close = if input.close_clicked {
        seq![FrameCommand::Close]
    } else {
        Seq::empty()
    };
    let maximize = if input.maximize_clicked {
        seq![FrameCommand::SetMaximized(!input.maximized)]
    } else {
        Seq::empty()
    };
    let minimize = if input.minimize_clicked {
        seq![FrameCommand::SetMinimized(true)]
    } else {
        Seq::empty()
    };
    resize + toggle + drag + close + maximize + minimize
}

/// Everything one render pass of the frame decides.
#[derive(Clone, Debug)]
pub struct FrameOutput {
    /// Whether to draw the one-unit border stroke; no stroke while
    /// maximized, since there is no visible edge to resize against.
    pub border_stroke: bool,
    /// The cursor icon to set, if any.
    pub cursor: Option<CursorIcon>,
    /// The commands to issue to the host surface, in order.
    pub commands: Vec<FrameCommand>,
    /// The title text to draw centered in the title bar.
    pub title: String,
    /// The title-bar strip.
    pub title_bar: Rect,
    /// The region handed to the content renderer.
    pub content: Rect,
}

/// The custom-decorated window frame. It carries only its title; all
/// interaction state is owned by the host surface and read back each pass.
#[derive(Clone)]
pub struct WindowFrame {
    title: String,
}

impl WindowFrame {
    /// A frame with the given display title.
    pub fn new(title: &str) -> (frame: WindowFrame)
        ensures
            frame.spec_title() == title@,
    {
        WindowFrame { title: title.to_owned() }
    }

    /// The frame's display title.
    pub closed spec fn spec_title(self) -> Seq<char> {
        self.title@
    }

    /// Run one render pass: decide the commands to issue, the cursor to
    /// set, whether to draw the border, and the derived rectangles.
    #[verifier::rlimit(50)]
    pub fn show(&self, input: &HostInput, app: Rect) -> (out: FrameOutput)
        requires
            input.wf(),
            app.wf(),
        ensures
            out.border_stroke == !input.maximized,
            out.cursor == spec_cursor(*input, app),
            out.commands@ == spec_commands(*input, app),
            out.title@ == self.spec_title(),
            out.title_bar == spec_title_bar_rect(app),
            out.content == spec_content_rect(app),
    {
        let mut commands: Vec<FrameCommand> = Vec::new();

        let active_resize: Option<ResizeDirection> = if input.maximized {
            None
        } else {
            match input.pointer {
                Some(p) => resize_direction(p, app),
                None => None,
            }
        };

        let cursor: Option<CursorIcon> = match active_resize {
            Some(dir) => Some(cursor_icon_for(dir)),
            None => None,
        };

        if let Some(dir) = active_resize {
            if input.primary_down {
                commands.push(FrameCommand::BeginResize(dir));
            }
        }
        if input.title_double_clicked {
            commands.push(FrameCommand::SetMaximized(!input.maximized));
        }
        if input.title_drag_started {
            commands.push(FrameCommand::StartDrag);
        }
        if input.close_clicked {
            commands.push(FrameCommand::Close);
        }
        if input.maximize_clicked {
            commands.push(FrameCommand::SetMaximized(!input.maximized));
        }
        if input.minimize_clicked {
            commands.push(FrameCommand::SetMinimized(true));
        }

        proof {
            assert(commands@ =~= spec_commands(*input, app));
        }

        FrameOutput {
            border_stroke: !input.maximized,
            cursor,
            commands,
            title: self.title.clone(),
            title_bar: title_bar_rect(app),
            content: content_rect(app),
        }
    }
}

/// How often command `c` occurs in `s`.
pub open spec fn count_cmd(s: Seq<FrameCommand>, c: FrameCommand) -> nat
    decreases s.len(),
{
    if s.len() == 0 {
        0
    } else {
        count_cmd(s.drop_last(), c) + (if s.last() == c {
            1nat
        } else {
            0nat
        })
    }
}

/// How many resize-start commands, of any direction, occur in `s`.
pub open spec fn resize_command_count(s: Seq<FrameCommand>) -> nat
    decreases s.len(),
{
    if s.len() == 0 {
        0
    } else {
        resize_command_count(s.drop_last()) + (if s.last() is BeginResize {
            1nat
        } else {
            0nat
        })
    }
}

/// Occurrence counts add up over concatenation.
pub proof fn lemma_count_cmd_add(a: Seq<FrameCommand>, b: Seq<FrameCommand>, c: FrameCommand)
    ensures
        count_cmd(a + b, c) == count_cmd(a, c) + count_cmd(b, c),
    decreases b.len(),
{
    if b.len() == 0 {
        assert(a + b =~= a);
    } else {
        lemma_count_cmd_add(a, b.drop_last(), c);
        assert((a + b).drop_last() =~= a + b.drop_last());
    }
}

/// Resize-start counts add up over concatenation.
pub proof fn lemma_resize_count_add(a: Seq<FrameCommand>, b: Seq<FrameCommand>)
    ensures
        resize_command_count(a + b) == resize_command_count(a) + resize_command_count(b),
    decreases b.len(),
{
    if b.len() == 0 {
        assert(a + b =~= a);
    } else {
        lemma_resize_count_add(a, b.drop_last());
        assert((a + b).drop_last() =~= a + b.drop_last());
    }
}

proof fn lemma_count_cmd_singleton(x: FrameCommand, c: FrameCommand)
    ensures
        count_cmd(seq![x], c) == (if x == c {
            1nat
        } else {
            0nat
        }),
        resize_command_count(seq![x]) == (if x is BeginResize {
            1nat
        } else {
            0nat
        }),
{
    reveal_with_fuel(count_cmd, 2);
    reveal_with_fuel(resize_command_count, 2);
    assert(seq![x].drop_last() =~= Seq::<FrameCommand>::empty());
}

/// How often each command is issued in one render pass.
///
/// Each title-bar or button event contributes exactly one command: a
/// double-click or a click of the maximize/restore button each issue one
/// maximize toggle (to the opposite of the current state, never to the
/// current one), a drag start issues one drag hand-off, the close button
/// one close, the minimize button one minimize; and a resize start is
/// issued exactly when a resize handle is active while the primary button
/// is down.
pub proof fn lemma_command_counts(input: HostInput, app: Rect)
    ensures
        count_cmd(spec_commands(input, app), FrameCommand::StartDrag) == (if input.title_drag_started {
            1nat
        } else {
            0nat
        }),
        count_cmd(spec_commands(input, app), FrameCommand::Close) == (if input.close_clicked {
            1nat
        } else {
            0nat
        }),
        count_cmd(spec_commands(input, app), FrameCommand::SetMinimized(true)) == (if input.minimize_clicked {
            1nat
        } else {
            0nat
        }),
        count_cmd(spec_commands(input, app), FrameCommand::SetMinimized(false)) == 0,
        count_cmd(spec_commands(input, app), FrameCommand::SetMaximized(!input.maximized)) == (if input.title_double_clicked {
            1nat
        } else {
            0nat
        }) + (if input.maximize_clicked {
            1nat
        } else {
            0nat
        }),
        count_cmd(spec_commands(input, app), FrameCommand::SetMaximized(input.maximized)) == 0,
        resize_command_count(spec_commands(input, app)) == (if spec_active_resize(input, app) is Some
            && input.primary_down {
            1nat
        } else {
            0nat
        }),
{
    let resize = match spec_active_resize(input, app) {
        Some(dir) => if input.primary_down {
            seq![FrameCommand::BeginResize(dir)]
        } else {
            Seq::empty()
        },
        None => Seq::empty(),
    };
    let toggle = if input.title_double_clicked {
        seq![FrameCommand::SetMaximized(!input.maximized)]
    } else {
        Seq::empty()
    };
    let drag = if input.title_drag_started {
        seq![FrameCommand::StartDrag]
    } else {
        Seq::empty()
    };
    let close = if input.close_clicked {
        seq![FrameCommand::Close]
    } else {
        Seq::empty()
    };
    let maximize = if input.maximize_clicked {
        seq![FrameCommand::SetMaximized(!input.maximized)]
    } else {
        Seq::empty()
    };
    let minimize = if input.minimize_clicked {
        seq![FrameCommand::SetMinimized(true)]
    } else {
        Seq::empty()
    };
    assert(spec_commands(input, app) == resize + toggle + drag + close + maximize + minimize);

    assert forall|x: FrameCommand, c: FrameCommand|
        count_cmd(seq![x], c) == (if x == c {
            1nat
        } else {
            0nat
        }) by {
        lemma_count_cmd_singleton(x, c);
    }

    assert forall|x: FrameCommand|
        resize_command_count(seq![x]) == (if x is BeginResize {
            1nat
        } else {
            0nat
        }) by {
        lemma_count_cmd_singleton(x, x);
    }

    assert forall|c: FrameCommand|
        count_cmd(resize + toggle + drag + close + maximize + minimize, c) == count_cmd(resize, c)
            + count_cmd(toggle, c) + count_cmd(drag, c) + count_cmd(close, c) + count_cmd(
            maximize,
            c,
        ) + count_cmd(minimize, c) by {
        lemma_count_cmd_add(resize, toggle, c);
        lemma_count_cmd_add(resize + toggle, drag, c);
        lemma_count_cmd_add(resize + toggle + drag, close, c);
        lemma_count_cmd_add(resize + toggle + drag + close, maximize, c);
        lemma_count_cmd_add(resize + toggle + drag + close + maximize, minimize, c);
    }

    lemma_resize_count_add(resize, toggle);
    lemma_resize_count_add(resize + toggle, drag);
    lemma_resize_count_add(resize + toggle + drag, close);
    lemma_resize_count_add(resize + toggle + drag + close, maximize);
    lemma_resize_count_add(resize + toggle + drag + close + maximize, minimize);
}

/// For a pointer strictly inside the frame, clear of the resize band along
/// the left, right and bottom edges, and not maximized: no resize handle
/// is active and no cursor icon is set.
pub proof fn lemma_pointer_in_interior(input: HostInput, app: Rect, p: Pos)
    requires
        input.pointer == Some(p),
        !input.maximized,
        app.left + RESIZE_MARGIN <= p.x,
        p.x <= app.right - RESIZE_MARGIN,
        p.y <= app.bottom - RESIZE_MARGIN,
    ensures
        spec_resize_direction(p, app) == None::<ResizeDirection>,
        spec_active_resize(input, app) == None::<ResizeDirection>,
        spec_cursor(input, app) == None::<CursorIcon>,
{
}

/// A pointer within the resize margin of both the right and the bottom
/// edge grabs the south-east corner: the corner takes priority over the
/// single edges. Holds for frames tall enough that the bottom band lies
/// below the title bar.
pub proof fn lemma_corner_south_east(p: Pos, app: Rect)
    requires
        -RESIZE_MARGIN < p.x - app.right < RESIZE_MARGIN,
        -RESIZE_MARGIN < p.y - app.bottom < RESIZE_MARGIN,
        app.height() >= TITLE_BAR_HEIGHT + RESIZE_MARGIN,
    ensures
        spec_resize_direction(p, app) == Some(ResizeDirection::SouthEast),
{
}

/// A pointer within the resize margin of the left edge only — below the
/// title-bar strip and clear of the bottom band — grabs the west edge.
pub proof fn lemma_west_edge(p: Pos, app: Rect)
    requires
        -RESIZE_MARGIN < p.x - app.left < RESIZE_MARGIN,
        p.y > app.top + TITLE_BAR_HEIGHT,
        p.y <= app.bottom - RESIZE_MARGIN,
    ensures
        spec_resize_direction(p, app) == Some(ResizeDirection::West),
{
}

/// Inside the title-bar band the left and right edges are never grabbed:
/// the title bar takes precedence, and the bottom edge alone determines no
/// direction, so no resize handle is active there at all.
pub proof fn lemma_title_band_blocks_resize(p: Pos, app: Rect)
    requires
        p.y <= app.top + TITLE_BAR_HEIGHT,
    ensures
        spec_resize_direction(p, app) == None::<ResizeDirection>,
{
}

/// While maximized no resize handle is ever active, no resize cursor is
/// set, and no resize command is issued, wherever the pointer is. (The
/// border stroke is also dropped; that is part of [`WindowFrame::show`]'s
/// contract.)
pub proof fn lemma_maximized_no_resize(input: HostInput, app: Rect)
    requires
        input.maximized,
    ensures
        spec_active_resize(input, app) == None::<ResizeDirection>,
        spec_cursor(input, app) == None::<CursorIcon>,
        resize_command_count(spec_commands(input, app)) == 0,
{
    lemma_command_counts(input, app);
}

/// A double-click on the title bar, with the maximize button untouched,
/// issues exactly one maximize toggle: to the opposite of the current
/// state, never to the current one.
pub proof fn lemma_double_click_toggles(input: HostInput, app: Rect)
    requires
        input.title_double_clicked,
        !input.maximize_clicked,
    ensures
        count_cmd(spec_commands(input, app), FrameCommand::SetMaximized(!input.maximized)) == 1,
        count_cmd(spec_commands(input, app), FrameCommand::SetMaximized(input.maximized)) == 0,
{
    lemma_command_counts(input, app);
}

/// A primary-button drag that starts on the title bar issues exactly one
/// drag hand-off and no resize command, even though the pointer may be
/// within the resize margin of an edge.
pub proof fn lemma_title_drag_starts_move(input: HostInput, app: Rect, p: Pos)
    requires
        input.title_drag_started,
        input.pointer == Some(p),
        p.y <= app.top + TITLE_BAR_HEIGHT,
    ensures
        count_cmd(spec_commands(input, app), FrameCommand::StartDrag) == 1,
        resize_command_count(spec_commands(input, app)) == 0,
{
    lemma_title_band_blocks_resize(p, app);
    lemma_command_counts(input, app);
}

} // verus!
