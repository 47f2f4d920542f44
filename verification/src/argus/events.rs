//! Input events: every physical key press becomes at most one UI event.
//!
//! The terminal library's events are read by the application and handed
//! over in the plain form below.

use vstd::prelude::*;

verus! {

/// A key, as the terminal reports it.
#[derive(Debug, Clone, Copy, PartialEq, Eq, Structural)]
pub enum KeyCode {
    Tab,
    Enter,
    Esc,
    Up,
    Down,
    Left,
    Right,
    Backspace,
    Char(char),
    F(u8),
    /// Shift+Tab as some terminals report it.
    BackTab,
    PageUp,
    PageDown,
    Home,
    End,
    /// Any other key.
    Other,
}

/// The modifier keys held with a key.
#[derive(Debug, Clone, Copy, PartialEq, Eq, Structural)]
pub struct KeyModifiers {
    pub control: bool,
    pub shift: bool,
    pub alt: bool,
}

impl KeyModifiers {
    /// No modifier.
    pub fn none() -> (r: KeyModifiers)
        ensures
            r == (KeyModifiers { control: false, shift: false, alt: false }),
    {
        KeyModifiers { control: false, shift: false, alt: false }
    }

    /// Shift alone.
    pub fn shift() -> (r: KeyModifiers)
        ensures
            r == (KeyModifiers { control: false, shift: true, alt: false }),
    {
        KeyModifiers { control: false, shift: true, alt: false }
    }

    /// Control alone.
    pub fn control() -> (r: KeyModifiers)
        ensures
            r == (KeyModifiers { control: true, shift: false, alt: false }),
    {
        KeyModifiers { control: true, shift: false, alt: false }
    }
}

/// What a mouse event did.
#[derive(Debug, Clone, Copy, PartialEq, Eq, Structural)]
pub enum MouseEventKind {
    /// A button went down.
    Down,
    /// Moves, drags, releases and scrolls.
    Other,
}

/// A terminal event.
#[derive(Debug, Clone, Copy, PartialEq, Eq, Structural)]
pub enum InputEvent {
    Key { code: KeyCode, modifiers: KeyModifiers },
    Mouse { kind: MouseEventKind, row: u16, column: u16 },
    Resize { cols: u16, rows: u16 },
    /// Focus changes and pastes.
    Other,
}

/// An event that the main loop handles.
pub enum ArgusEvent {
    /// Tab: move focus forward.
    TabForward,
    /// Shift+Tab: move focus backward.
    TabBackward,
    /// Enter: activate the focused element.
    Activate,
    Escape,
    Up,
    Down,
    Left,
    Right,
    /// A character for the command prompt.
    Char(char),
    Backspace,
    /// Ctrl+L: focus the command prompt.
    FocusPrompt,
    /// Mouse click at (row, col).
    MouseClick { row: u16, col: u16 },
    /// Mouse click on a focus target by id.
    MouseClickTarget(String),
    /// The window was resized to (cols, rows).
    Resize { cols: usize, rows: usize },
    Quit,
}

/// Two events are the same.
pub open spec fn same_event(a: ArgusEvent, b: ArgusEvent) -> bool {
    match (a, b) {
        (ArgusEvent::TabForward, ArgusEvent::TabForward) => true,
        (ArgusEvent::TabBackward, ArgusEvent::TabBackward) => true,
        (ArgusEvent::Activate, ArgusEvent::Activate) => true,
        (ArgusEvent::Escape, ArgusEvent::Escape) => true,
        (ArgusEvent::Up, ArgusEvent::Up) => true,
        (ArgusEvent::Down, ArgusEvent::Down) => true,
        (ArgusEvent::Left, ArgusEvent::Left) => true,
        (ArgusEvent::Right, ArgusEvent::Right) => true,
        (ArgusEvent::Char(x), ArgusEvent::Char(y)) => x == y,
        (ArgusEvent::Backspace, ArgusEvent::Backspace) => true,
        (ArgusEvent::FocusPrompt, ArgusEvent::FocusPrompt) => true,
        (ArgusEvent::MouseClick { row: r1, col: c1 }, ArgusEvent::MouseClick { row: r2, col: c2 }) => r1 == r2 && c1 == c2,
        (ArgusEvent::MouseClickTarget(x), ArgusEvent::MouseClickTarget(y)) => x@ == y@,
        (ArgusEvent::Resize { cols: c1, rows: r1 }, ArgusEvent::Resize { cols: c2, rows: r2 }) => c1 == c2 && r1 == r2,
        (ArgusEvent::Quit, ArgusEvent::Quit) => true,
        _ => false,
    }
}

impl PartialEq for ArgusEvent {
    fn eq(&self, other: &Self) -> (r: bool) {
        match (self, other) {
            (ArgusEvent::TabForward, ArgusEvent::TabForward) => true,
            (ArgusEvent::TabBackward, ArgusEvent::TabBackward) => true,
            (ArgusEvent::Activate, ArgusEvent::Activate) => true,
            (ArgusEvent::Escape, ArgusEvent::Escape) => true,
            (ArgusEvent::Up, ArgusEvent::Up) => true,
            (ArgusEvent::Down, ArgusEvent::Down) => true,
            (ArgusEvent::Left, ArgusEvent::Left) => true,
            (ArgusEvent::Right, ArgusEvent::Right) => true,
            (ArgusEvent::Char(x), ArgusEvent::Char(y)) => *x == *y,
            (ArgusEvent::Backspace, ArgusEvent::Backspace) => true,
            (ArgusEvent::FocusPrompt, ArgusEvent::FocusPrompt) => true,
            (ArgusEvent::MouseClick { row: r1, col: c1 }, ArgusEvent::MouseClick { row: r2, col: c2 }) => *r1 == *r2 && *c1 == *c2,
            (ArgusEvent::MouseClickTarget(x), ArgusEvent::MouseClickTarget(y)) => crate::text::str_eq(x.as_str(), y.as_str()),
            (ArgusEvent::Resize { cols: c1, rows: r1 }, ArgusEvent::Resize { cols: c2, rows: r2 }) => *c1 == *c2 && *r1 == *r2,
            (ArgusEvent::Quit, ArgusEvent::Quit) => true,
            _ => false,
        }
    }
}

impl vstd::std_specs::cmp::PartialEqSpecImpl for ArgusEvent {
    open spec fn obeys_eq_spec() -> bool {
        true
    }

    open spec fn eq_spec(&self, other: &Self) -> bool {
        same_event(*self, *other)
    }
}

/// The event a key press gives: Ctrl+L focuses the prompt, Ctrl+C and
/// Ctrl+Q quit, Tab moves focus (backward with Shift), other control
/// characters and unknown keys give nothing.
pub open spec fn key_event(code: KeyCode, m: KeyModifiers) -> Option<ArgusEvent> {
    if m.control && code == KeyCode::Char('l') {
        Some(ArgusEvent::FocusPrompt)
    } else if m.control && (code == KeyCode::Char('c') || code == KeyCode::Char('q')) {
        Some(ArgusEvent::Quit)
    } else {
        match code {
            KeyCode::Tab => if m.shift {
                Some(ArgusEvent::TabBackward)
            } else {
                Some(ArgusEvent::TabForward)
            },
            KeyCode::Enter => Some(ArgusEvent::Activate),
            KeyCode::Esc => Some(ArgusEvent::Escape),
            KeyCode::Up => Some(ArgusEvent::Up),
            KeyCode::Down => Some(ArgusEvent::Down),
            KeyCode::Left => Some(ArgusEvent::Left),
            KeyCode::Right => Some(ArgusEvent::Right),
            KeyCode::Backspace => Some(ArgusEvent::Backspace),
            KeyCode::Char(c) => if m.control {
                None
            } else {
                Some(ArgusEvent::Char(c))
            },
            _ => None,
        }
    }
}

/// The event a terminal event gives.
pub open spec fn event_of(e: InputEvent) -> Option<ArgusEvent> {
    match e {
        InputEvent::Key { code, modifiers } => key_event(code, modifiers),
        InputEvent::Mouse { kind, row, column } => match kind {
            MouseEventKind::Down => Some(ArgusEvent::MouseClick { row, col: column }),
            MouseEventKind::Other => None,
        },
        InputEvent::Resize { cols, rows } => Some(ArgusEvent::Resize { cols: cols as usize, rows: rows as usize }),
        InputEvent::Other => None,
    }
}

/// The single entry point that turns terminal events into UI events.
pub struct InputProcessor;

impl InputProcessor {
    /// The UI event of a terminal event, if it has one.
    pub fn process_event(event: &InputEvent) -> (r: Option<ArgusEvent>)
        ensures
            r == event_of(*event),
    {
        match event {
            InputEvent::Key { code, modifiers } => Self::process_key(code, modifiers),
            InputEvent::Mouse { kind, row, column } => Self::process_mouse(kind, *row, *column),
            InputEvent::Resize { cols, rows } => Some(ArgusEvent::Resize { cols: *cols as usize, rows: *rows as usize }),
            InputEvent::Other => None,
        }
    }

    /// The UI event of a key press.
    pub fn process_key(code: &KeyCode, modifiers: &KeyModifiers) -> (r: Option<ArgusEvent>)
        ensures
            r == key_event(*code, *modifiers),
    {
        if modifiers.control && *code == KeyCode::Char('l') {
            return Some(ArgusEvent::FocusPrompt);
        }
        if modifiers.control && (*code == KeyCode::Char('c') || *code == KeyCode::Char('q')) {
            return Some(ArgusEvent::Quit);
        }
        match code {
            KeyCode::Tab => {
                if modifiers.shift {
                    Some(ArgusEvent::TabBackward)
                } else {
                    Some(ArgusEvent::TabForward)
                }
            },
            KeyCode::Enter => Some(ArgusEvent::Activate),
            KeyCode::Esc => Some(ArgusEvent::Escape),
            KeyCode::Up => Some(ArgusEvent::Up),
            KeyCode::Down => Some(ArgusEvent::Down),
            KeyCode::Left => Some(ArgusEvent::Left),
            KeyCode::Right => Some(ArgusEvent::Right),
            KeyCode::Backspace => Some(ArgusEvent::Backspace),
            KeyCode::Char(c) => {
                if modifiers.control {
                    None
                } else {
                    Some(ArgusEvent::Char(*c))
                }
            },
            _ => None,
        }
    }

    /// The UI event of a mouse event: a click for any button press.
    pub fn process_mouse(kind: &MouseEventKind, row: u16, col: u16) -> (r: Option<ArgusEvent>)
        ensures
            r == (match *kind {
                MouseEventKind::Down => Some(ArgusEvent::MouseClick { row, col }),
                MouseEventKind::Other => None,
            }),
    {
        match kind {
            MouseEventKind::Down => Some(ArgusEvent::MouseClick { row, col }),
            MouseEventKind::Other => None,
        }
    }
}

/// Each key press gives at most one event, and the same press always the
/// same event; only Ctrl+L, Ctrl+C and Ctrl+Q of the control characters
/// give one.
pub proof fn law_control_chars(c: char, shift: bool, alt: bool)
    ensures
        ({
            let m = KeyModifiers { control: true, shift, alt };
            key_event(KeyCode::Char(c), m) is Some <==> (c == 'l' || c == 'c' || c == 'q')
        }),
{
}

} // verus!
