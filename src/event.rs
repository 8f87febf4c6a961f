//! The normalised input events, the backend's raw events, and how each raw
//! event becomes a normalised one.

use vstd::prelude::*;

use crate::geometry::{Point, Size};
use crossterm::event::KeyCode as RawKeyCode;
use crossterm::event::MouseButton as RawMouseButton;
use crossterm::event::MouseEventKind as RawMouseKind;

verus! {

/// crossterm's key code: a plain enum.
#[verifier::external_type_specification]
pub struct ExRawKeyCode(RawKeyCode);

/// crossterm's mouse button: a plain enum.
#[verifier::external_type_specification]
pub struct ExRawMouseButton(RawMouseButton);

/// crossterm's kind of mouse event: a plain enum.
#[verifier::external_type_specification]
pub struct ExRawMouseKind(RawMouseKind);

/// A key modifier that the model distinguishes.
#[derive(Clone, Copy, Debug, PartialEq, Eq, Structural)]
pub enum KeyModifier {
    Control,
}

/// A key press.
#[derive(Clone, Copy, Debug, PartialEq, Eq, Structural)]
pub enum KeyEvent {
    Char(char, Option<KeyModifier>),
    Left,
    Right,
    Up,
    Down,
    Tab,
    Enter,
    F(u8),
    Backspace(Option<KeyModifier>),
    Esc,
}

/// A mouse button.
#[derive(Clone, Copy, Debug, PartialEq, Eq, Structural)]
pub enum MouseButton {
    Left,
    Middle,
    Right,
}

/// What the mouse did.
#[derive(Clone, Copy, Debug, PartialEq, Eq, Structural)]
pub enum MouseEventKind {
    Move,
    Drag(MouseButton),
    Press(MouseButton),
    Release(MouseButton),
    ScrollUp,
    ScrollDown,
}

/// A mouse action at a cell.
#[derive(Clone, Copy, Debug, PartialEq, Eq, Structural)]
pub struct MouseEvent {
    pub kind: MouseEventKind,
    pub point: Point,
}

/// A normalised input event. A resize carries no payload: the new size is
/// stored in the terminal.
#[derive(Clone, Copy, Debug, PartialEq, Eq, Structural)]
pub enum Event {
    Key(KeyEvent),
    Mouse(MouseEvent),
    Resize,
}

/// An input event as the backend reports it, with the modifier set as its bits.
#[derive(Clone, Copy, Debug, PartialEq, Eq)]
pub enum RawEvent {
    Key { code: RawKeyCode, modifiers: u8 },
    Mouse { kind: RawMouseKind, column: u16, row: u16 },
    Resize { width: u16, height: u16 },
}

/// The modifier bits that mean "Control and nothing else".
pub open spec fn control_bits() -> u8 {
    2
}

/// The button that stands for the backend's `b`.
pub open spec fn button_of(b: RawMouseButton) -> MouseButton {
    match b {
        RawMouseButton::Left => MouseButton::Left,
        RawMouseButton::Middle => MouseButton::Middle,
        RawMouseButton::Right => MouseButton::Right,
    }
}

/// The kind of mouse event that stands for the backend's `k`.
pub open spec fn mouse_kind_of(k: RawMouseKind) -> MouseEventKind {
    match k {
        RawMouseKind::Moved => MouseEventKind::Move,
        RawMouseKind::Drag(b) => MouseEventKind::Drag(button_of(b)),
        RawMouseKind::Down(b) => MouseEventKind::Press(button_of(b)),
        RawMouseKind::Up(b) => MouseEventKind::Release(button_of(b)),
        RawMouseKind::ScrollUp => MouseEventKind::ScrollUp,
        RawMouseKind::ScrollDown => MouseEventKind::ScrollDown,
    }
}

/// The key event for `code` pressed with the modifier bits `modifiers`, or
/// `None` for a key outside the model. Control-W is a word-deleting backspace.
pub open spec fn key_of(code: RawKeyCode, modifiers: u8) -> Option<KeyEvent> {
    match code {
        RawKeyCode::Char(c) => if c == 'w' && modifiers == control_bits() {
            Some(KeyEvent::Backspace(Some(KeyModifier::Control)))
        } else if modifiers == control_bits() {
            Some(KeyEvent::Char(c, Some(KeyModifier::Control)))
        } else {
            Some(KeyEvent::Char(c, None))
        },
        RawKeyCode::Left => Some(KeyEvent::Left),
        RawKeyCode::Right => Some(KeyEvent::Right),
        RawKeyCode::Up => Some(KeyEvent::Up),
        RawKeyCode::Down => Some(KeyEvent::Down),
        RawKeyCode::Tab => Some(KeyEvent::Tab),
        RawKeyCode::Enter => Some(KeyEvent::Enter),
        RawKeyCode::F(n) => Some(KeyEvent::F(n)),
        RawKeyCode::Backspace => Some(KeyEvent::Backspace(None)),
        RawKeyCode::Esc => Some(KeyEvent::Esc),
        _ => None,
    }
}

/// The normalised event for the backend's `raw`, or `None` where it is outside
/// the model.
pub open spec fn translated(raw: RawEvent) -> Option<Event> {
    match raw {
        RawEvent::Key { code, modifiers } => match key_of(code, modifiers) {
            Some(k) => Some(Event::Key(k)),
            None => None,
        },
        RawEvent::Mouse { kind, column, row } => Some(
            Event::Mouse(MouseEvent { kind: mouse_kind_of(kind), point: Point { x: column, y: row } }),
        ),
        RawEvent::Resize { .. } => Some(Event::Resize),
    }
}

/// The terminal size after `raw`, where it was `size` before.
pub open spec fn size_after(size: Size, raw: RawEvent) -> Size {
    match raw {
        RawEvent::Resize { width, height } => Size { width, height },
        _ => size,
    }
}

/// Whether `code` is a key that the model has a shape for.
pub open spec fn is_modelled_key(code: RawKeyCode) -> bool {
    match code {
        RawKeyCode::Char(_) | RawKeyCode::Left | RawKeyCode::Right | RawKeyCode::Up
        | RawKeyCode::Down | RawKeyCode::Tab | RawKeyCode::Enter | RawKeyCode::F(_)
        | RawKeyCode::Backspace | RawKeyCode::Esc => true,
        _ => false,
    }
}

fn button_from_raw(b: RawMouseButton) -> (r: MouseButton)
    ensures
        r == button_of(b),
{
    match b {
        RawMouseButton::Left => MouseButton::Left,
        RawMouseButton::Middle => MouseButton::Middle,
        RawMouseButton::Right => MouseButton::Right,
    }
}

/// Translates the backend's mouse event kind.
pub fn mouse_kind_from_raw(k: RawMouseKind) -> (r: MouseEventKind)
    ensures
        r == mouse_kind_of(k),
{
    match k {
        RawMouseKind::Moved => MouseEventKind::Move,
        RawMouseKind::Drag(b) => MouseEventKind::Drag(button_from_raw(b)),
        RawMouseKind::Down(b) => MouseEventKind::Press(button_from_raw(b)),
        RawMouseKind::Up(b) => MouseEventKind::Release(button_from_raw(b)),
        RawMouseKind::ScrollUp => MouseEventKind::ScrollUp,
        RawMouseKind::ScrollDown => MouseEventKind::ScrollDown,
    }
}

/// Translates a key press; `None` for a key outside the model.
pub fn key_from_raw(code: RawKeyCode, modifiers: u8) -> (r: Option<KeyEvent>)
    ensures
        r == key_of(code, modifiers),
        r.is_none() <==> !is_modelled_key(code),
{
    let control = modifiers == crate::ansi::control_modifier_bits();
    match code {
        RawKeyCode::Char(c) => {
            if c == 'w' && control {
                Some(KeyEvent::Backspace(Some(KeyModifier::Control)))
            } else if control {
                Some(KeyEvent::Char(c, Some(KeyModifier::Control)))
            } else {
                Some(KeyEvent::Char(c, None))
            }
        },
        RawKeyCode::Left => Some(KeyEvent::Left),
        RawKeyCode::Right => Some(KeyEvent::Right),
        RawKeyCode::Up => Some(KeyEvent::Up),
        RawKeyCode::Down => Some(KeyEvent::Down),
        RawKeyCode::Tab => Some(KeyEvent::Tab),
        RawKeyCode::Enter => Some(KeyEvent::Enter),
        RawKeyCode::F(n) => Some(KeyEvent::F(n)),
        RawKeyCode::Backspace => Some(KeyEvent::Backspace(None)),
        RawKeyCode::Esc => Some(KeyEvent::Esc),
        _ => None,
    }
}

/// Every mouse event of the backend becomes a mouse event of the same kind at
/// the same cell.
pub proof fn lemma_mouse_position_preserved(kind: RawMouseKind, column: u16, row: u16)
    ensures
        translated(RawEvent::Mouse { kind, column, row }) == Some(
            Event::Mouse(MouseEvent { kind: mouse_kind_of(kind), point: Point { x: column, y: row } }),
        ),
        match (kind, mouse_kind_of(kind)) {
            (RawMouseKind::Moved, MouseEventKind::Move) => true,
            (RawMouseKind::Drag(b), MouseEventKind::Drag(m)) => m == button_of(b),
            (RawMouseKind::Down(b), MouseEventKind::Press(m)) => m == button_of(b),
            (RawMouseKind::Up(b), MouseEventKind::Release(m)) => m == button_of(b),
            (RawMouseKind::ScrollUp, MouseEventKind::ScrollUp) => true,
            (RawMouseKind::ScrollDown, MouseEventKind::ScrollDown) => true,
            _ => false,
        },
{
}

/// Each of the three backend buttons maps to a distinct button.
pub proof fn lemma_buttons_distinct(a: RawMouseButton, b: RawMouseButton)
    ensures
        button_of(a) == button_of(b) <==> a == b,
{
}

/// Control-W becomes a backspace with Control, never a character.
pub proof fn lemma_control_w_is_backspace()
    ensures
        key_of(RawKeyCode::Char('w'), control_bits()) == Some(
            KeyEvent::Backspace(Some(KeyModifier::Control)),
        ),
{
}

/// A key outside the model gives no event and leaves the size as it was.
pub proof fn lemma_unmodelled_key_dropped(code: RawKeyCode, modifiers: u8, size: Size)
    requires
        !is_modelled_key(code),
    ensures
        translated(RawEvent::Key { code, modifiers }) is None,
        size_after(size, RawEvent::Key { code, modifiers }) == size,
{
}

} // verus!
