//! The input mapper: keys and mouse clicks become display-mode actions.
//!
//! A click is hit-tested against the geometry computed for the frame that
//! was last drawn; geometry and input are sampled once per loop iteration,
//! so the one frame of staleness is accepted.

use vstd::prelude::*;
use crate::geometry::{Rect, ScreenGeometry};
use crate::mode::{spec_advance, DisplayMode};

verus! {

/// A key, as the loop sees it: only the keys the clock reacts to are kept
/// apart; every other key is `Other`.
#[derive(Clone, Copy, Debug, PartialEq, Eq, Structural)]
pub enum KeyCode {
    Char(char),
    Esc,
    Tab,
    Other,
}

/// Whether a key event is the press, the release, or a repeat.
#[derive(Clone, Copy, Debug, PartialEq, Eq, Structural)]
pub enum KeyEventKind {
    Press,
    Release,
    Repeat,
}

/// The mouse button of a mouse event.
#[derive(Clone, Copy, Debug, PartialEq, Eq, Structural)]
pub enum MouseButton {
    Left,
    Right,
    Middle,
}

/// The kind of a mouse event; wheel movement of any direction is `Scroll`.
#[derive(Clone, Copy, Debug, PartialEq, Eq, Structural)]
pub enum MouseEventKind {
    Down,
    Up,
    Drag,
    Moved,
    Scroll,
}

/// What an input event asks of the clock.
#[derive(Clone, Copy, Debug, PartialEq, Eq, Structural)]
pub enum Action {
    /// Leave the program.
    Quit,
    /// Step the display mode to the next state.
    Advance,
    /// Show the digital display without changing the tier.
    ForceDigital,
    /// Nothing: the event is not one the clock reacts to.
    NoOp,
}

/// The action of a key: `q` and escape quit, tab cycles the mode, `a`
/// switches to digital; anything else, and any event that is not the press
/// itself, does nothing.
pub open spec fn spec_handle_key(code: KeyCode, kind: KeyEventKind) -> Action {
    if kind != KeyEventKind::Press {
        Action::NoOp
    } else if code == KeyCode::Char('q') || code == KeyCode::Esc {
        Action::Quit
    } else if code == KeyCode::Tab {
        Action::Advance
    } else if code == KeyCode::Char('a') {
        Action::ForceDigital
    } else {
        Action::NoOp
    }
}

/// Map a key event to its action.
pub fn handle_key(code: KeyCode, kind: KeyEventKind) -> (a: Action)
    ensures
        a == spec_handle_key(code, kind),
{
    if kind != KeyEventKind::Press {
        Action::NoOp
    } else {
        match code {
            KeyCode::Char(c) => {
                if c == 'q' {
                    Action::Quit
                } else if c == 'a' {
                    Action::ForceDigital
                } else {
                    Action::NoOp
                }
            },
            KeyCode::Esc => Action::Quit,
            KeyCode::Tab => Action::Advance,
            KeyCode::Other => Action::NoOp,
        }
    }
}

/// Strictly inside a rectangle of cells: every boundary cell is outside.
pub open spec fn spec_inside_rect(column: u16, row: u16, r: Rect) -> bool {
    &&& r.x < column < r.x + r.width
    &&& r.y < row < r.y + r.height
}

/// Strictly inside the square of side `shorter_axis` centered on the longer
/// screen axis: the square is offset by half the difference of the axes on
/// whichever axis is longer.  On a degenerate canvas the square is empty.
pub open spec fn spec_inside_analog_square(column: u16, row: u16, g: ScreenGeometry) -> bool {
    let s = if g.shorter_axis > 0 { g.shorter_axis as int } else { 0 };
    let offset = (g.longer_axis - s) / 2;
    let off_x = if g.axis_is_vertical_short { offset } else { 0 };
    let off_y = if g.axis_is_vertical_short { 0 } else { offset };
    &&& off_x < column < off_x + s
    &&& off_y < row < off_y + s
}

/// The action of a click at `(column, row)`: in digital mode a left press
/// strictly inside the content rectangle advances the mode, in analog mode
/// one strictly inside the centered square does; every other click does
/// nothing.
pub open spec fn spec_handle_click(
    button: MouseButton,
    kind: MouseEventKind,
    column: u16,
    row: u16,
    g: ScreenGeometry,
    mode: DisplayMode,
) -> Action {
    if button == MouseButton::Left && kind == MouseEventKind::Down {
        let hit = if mode.analog {
            spec_inside_analog_square(column, row, g)
        } else {
            spec_inside_rect(column, row, g.content_rect)
        };
        if hit {
            Action::Advance
        } else {
            Action::NoOp
        }
    } else {
        Action::NoOp
    }
}

/// Hit-test a mouse event against the last computed geometry.
pub fn handle_click(
    button: MouseButton,
    kind: MouseEventKind,
    column: u16,
    row: u16,
    g: &ScreenGeometry,
    mode: DisplayMode,
) -> (a: Action)
    requires
        g.wf(),
    ensures
        a == spec_handle_click(button, kind, column, row, *g, mode),
{
    if !(matches!(button, MouseButton::Left) && matches!(kind, MouseEventKind::Down)) {
        return Action::NoOp;
    }
    let hit: bool = if mode.analog {
        let s: i32 = if g.shorter_axis > 0 { g.shorter_axis } else { 0 };
        let offset: i32 = (g.longer_axis - s) / 2;
        let off_x: i32 = if g.axis_is_vertical_short { offset } else { 0 };
        let off_y: i32 = if g.axis_is_vertical_short { 0 } else { offset };
        let col: i32 = column as i32;
        let r: i32 = row as i32;
        off_x < col && col < off_x + s && off_y < r && r < off_y + s
    } else {
        let cr = g.content_rect;
        let col: u32 = column as u32;
        let r: u32 = row as u32;
        (cr.x as u32) < col && col < cr.x as u32 + cr.width as u32 && (cr.y as u32) < r && r
            < cr.y as u32 + cr.height as u32
    };
    if hit {
        Action::Advance
    } else {
        Action::NoOp
    }
}

/// The mode an action leaves behind: only `Advance` and `ForceDigital`
/// move it.
pub open spec fn spec_apply_action(m: DisplayMode, action: Action) -> DisplayMode {
    match action {
        Action::Quit => m,
        Action::Advance => spec_advance(m),
        Action::ForceDigital => DisplayMode { tier: m.tier, analog: false },
        Action::NoOp => m,
    }
}

/// Apply an action to the durable mode; the result says whether the loop
/// should end.
pub fn apply_action(mode: &mut DisplayMode, action: Action) -> (quit: bool)
    ensures
        quit == (action == Action::Quit),
        *final(mode) == spec_apply_action(*old(mode), action),
{
    match action {
        Action::Quit => true,
        Action::Advance => {
            mode.advance();
            false
        },
        Action::ForceDigital => {
            mode.force_digital();
            false
        },
        Action::NoOp => false,
    }
}

/// One input event, as the terminal driver hands it over.
#[derive(Clone, Copy, Debug, PartialEq, Eq, Structural)]
pub enum InputEvent {
    Key { code: KeyCode, kind: KeyEventKind },
    Mouse { button: MouseButton, kind: MouseEventKind, column: u16, row: u16 },
}

/// The action of an event: keys by the key map, mouse events by the
/// hit-test against the last drawn frame.
pub open spec fn spec_event_action(e: InputEvent, g: ScreenGeometry, mode: DisplayMode) -> Action {
    match e {
        InputEvent::Key { code, kind } => spec_handle_key(code, kind),
        InputEvent::Mouse { button, kind, column, row } => spec_handle_click(
            button,
            kind,
            column,
            row,
            g,
            mode,
        ),
    }
}

/// One step of the loop's decision: map the event against the last frame's
/// geometry and apply its action to the durable mode.  The result says
/// whether the loop should end.
pub fn step(mode: &mut DisplayMode, g: &ScreenGeometry, event: &InputEvent) -> (quit: bool)
    requires
        g.wf(),
    ensures
        quit == (spec_event_action(*event, *g, *old(mode)) == Action::Quit),
        *final(mode) == spec_apply_action(*old(mode), spec_event_action(*event, *g, *old(mode))),
{
    let action = match event {
        InputEvent::Key { code, kind } => handle_key(*code, *kind),
        InputEvent::Mouse { button, kind, column, row } => handle_click(
            *button,
            *kind,
            *column,
            *row,
            g,
            *mode,
        ),
    };
    apply_action(mode, action)
}

} // verus!
