//! The escape sequences that the backend writes for each command, and the
//! wrappers that ask crossterm for them.

use vstd::prelude::*;

use crossterm::style::Color as NativeColor;
use crossterm::Command;

verus! {

/// The decimal digit `d` as a character.
pub open spec fn digit_char(d: nat) -> char {
    seq!['0', '1', '2', '3', '4', '5', '6', '7', '8', '9'][d as int]
}

/// The decimal form of `n`, without leading zeros.
pub open spec fn decimal(n: nat) -> Seq<char>
    decreases n,
{
    if n < 10 {
        seq![digit_char(n)]
    } else {
        decimal(n / 10).push(digit_char(n % 10))
    }
}

/// Control Sequence Introducer followed by `body`.
pub open spec fn csi(body: Seq<char>) -> Seq<char> {
    seq!['\u{1b}', '['] + body
}

/// Operating System Command: `ESC ] body BEL`.
pub open spec fn osc(body: Seq<char>) -> Seq<char> {
    seq!['\u{1b}', ']'] + body + seq!['\u{7}']
}

/// A relative cursor move by `n` cells, ending in `letter`; nothing for zero cells.
pub open spec fn relative_move(n: u16, letter: char) -> Seq<char> {
    if n == 0 {
        Seq::empty()
    } else {
        csi(decimal(n as nat).push(letter))
    }
}

/// The SGR parameters that select `c` after the `38;` or `48;` prefix.
pub open spec fn color_params(c: NativeColor) -> Seq<char> {
    match c {
        NativeColor::Black => seq!['5', ';', '0'],
        NativeColor::DarkGrey => seq!['5', ';', '8'],
        NativeColor::Red => seq!['5', ';', '9'],
        NativeColor::DarkRed => seq!['5', ';', '1'],
        NativeColor::Green => seq!['5', ';', '1', '0'],
        NativeColor::DarkGreen => seq!['5', ';', '2'],
        NativeColor::Yellow => seq!['5', ';', '1', '1'],
        NativeColor::DarkYellow => seq!['5', ';', '3'],
        NativeColor::Blue => seq!['5', ';', '1', '2'],
        NativeColor::DarkBlue => seq!['5', ';', '4'],
        NativeColor::Magenta => seq!['5', ';', '1', '3'],
        NativeColor::DarkMagenta => seq!['5', ';', '5'],
        NativeColor::Cyan => seq!['5', ';', '1', '4'],
        NativeColor::DarkCyan => seq!['5', ';', '6'],
        NativeColor::White => seq!['5', ';', '1', '5'],
        NativeColor::Grey => seq!['5', ';', '7'],
        NativeColor::Rgb { r, g, b } => seq!['2', ';'] + decimal(r as nat) + seq![';'] + decimal(
            g as nat,
        ) + seq![';'] + decimal(b as nat),
        NativeColor::AnsiValue(v) => seq!['5', ';'] + decimal(v as nat),
        NativeColor::Reset => Seq::empty(),
    }
}

/// The sequence that sets the text foreground colour to `c`.
pub open spec fn foreground_sequence(c: NativeColor) -> Seq<char> {
    if c == NativeColor::Reset {
        csi(seq!['3', '9', 'm'])
    } else {
        csi(seq!['3', '8', ';'] + color_params(c) + seq!['m'])
    }
}

/// The sequence that sets the text background colour to `c`.
pub open spec fn background_sequence(c: NativeColor) -> Seq<char> {
    if c == NativeColor::Reset {
        csi(seq!['4', '9', 'm'])
    } else {
        csi(seq!['4', '8', ';'] + color_params(c) + seq!['m'])
    }
}

/// The sequence that moves the cursor to column `x`, row `y`.
pub open spec fn move_to_sequence(x: u16, y: u16) -> Seq<char> {
    csi(decimal((y + 1) as nat) + seq![';'] + decimal((x + 1) as nat) + seq!['H'])
}

/// Relies on crossterm's `terminal::EnterAlternateScreen`: its ANSI form.
#[verifier::external_body]
pub(crate) fn enter_alternate_screen_ansi() -> (r: String)
    ensures
        r@ == private_mode(seq!['1', '0', '4', '9'], true),
{
    let mut s = String::new();
    let _ = crossterm::terminal::EnterAlternateScreen.write_ansi(&mut s);
    s
}

/// Relies on crossterm's `terminal::LeaveAlternateScreen`: its ANSI form.
#[verifier::external_body]
pub(crate) fn leave_alternate_screen_ansi() -> (r: String)
    ensures
        r@ == private_mode(seq!['1', '0', '4', '9'], false),
{
    let mut s = String::new();
    let _ = crossterm::terminal::LeaveAlternateScreen.write_ansi(&mut s);
    s
}

/// Relies on crossterm's `terminal::SetTitle`: `ESC ] 0 ; title BEL`.
#[verifier::external_body]
pub(crate) fn set_title_ansi(title: &str) -> (r: String)
    ensures
        r@ == osc(seq!['0', ';'] + title@),
{
    let mut s = String::new();
    let _ = crossterm::terminal::SetTitle(title).write_ansi(&mut s);
    s
}

/// The five private modes that mouse capture switches, in the order enabled.
pub open spec fn mouse_modes() -> Seq<Seq<char>> {
    seq![
        seq!['1', '0', '0', '0'],
        seq!['1', '0', '0', '2'],
        seq!['1', '0', '0', '3'],
        seq!['1', '0', '1', '5'],
        seq!['1', '0', '0', '6'],
    ]
}

/// `CSI ? mode h`, or `CSI ? mode l` when `on` is false.
pub open spec fn private_mode(mode: Seq<char>, on: bool) -> Seq<char> {
    csi(seq!['?'] + mode + seq![if on { 'h' } else { 'l' }])
}

/// Relies on crossterm's `event::EnableMouseCapture`: its ANSI form.
#[verifier::external_body]
pub(crate) fn enable_mouse_capture_ansi() -> (r: String)
    ensures
        r@ == private_mode(mouse_modes()[0], true) + private_mode(mouse_modes()[1], true)
            + private_mode(mouse_modes()[2], true) + private_mode(mouse_modes()[3], true)
            + private_mode(mouse_modes()[4], true),
{
    let mut s = String::new();
    let _ = crossterm::event::EnableMouseCapture.write_ansi(&mut s);
    s
}

/// Relies on crossterm's `event::DisableMouseCapture`: its ANSI form, the modes
/// switched off in reverse order.
#[verifier::external_body]
pub(crate) fn disable_mouse_capture_ansi() -> (r: String)
    ensures
        r@ == private_mode(mouse_modes()[4], false) + private_mode(mouse_modes()[3], false)
            + private_mode(mouse_modes()[2], false) + private_mode(mouse_modes()[1], false)
            + private_mode(mouse_modes()[0], false),
{
    let mut s = String::new();
    let _ = crossterm::event::DisableMouseCapture.write_ansi(&mut s);
    s
}

/// Relies on crossterm's `cursor::Show`: its ANSI form.
#[verifier::external_body]
pub(crate) fn show_cursor_ansi() -> (r: String)
    ensures
        r@ == private_mode(seq!['2', '5'], true),
{
    let mut s = String::new();
    let _ = crossterm::cursor::Show.write_ansi(&mut s);
    s
}

/// Relies on crossterm's `cursor::Hide`: its ANSI form.
#[verifier::external_body]
pub(crate) fn hide_cursor_ansi() -> (r: String)
    ensures
        r@ == private_mode(seq!['2', '5'], false),
{
    let mut s = String::new();
    let _ = crossterm::cursor::Hide.write_ansi(&mut s);
    s
}

/// Relies on crossterm's `cursor::MoveTo`: `CSI row+1 ; column+1 H`. It adds one
/// to each coordinate in `u16`, so neither may be `u16::MAX`.
#[verifier::external_body]
pub(crate) fn move_to_ansi(x: u16, y: u16) -> (r: String)
    requires
        x < u16::MAX,
        y < u16::MAX,
    ensures
        r@ == move_to_sequence(x, y),
{
    let mut s = String::new();
    let _ = crossterm::cursor::MoveTo(x, y).write_ansi(&mut s);
    s
}

/// Relies on crossterm's `cursor::MoveToColumn`: `CSI x G`, `x` written as given
/// (the terminal reads it as a one-based column).
#[verifier::external_body]
pub(crate) fn move_to_column_ansi(x: u16) -> (r: String)
    ensures
        r@ == csi(decimal(x as nat).push('G')),
{
    let mut s = String::new();
    let _ = crossterm::cursor::MoveToColumn(x).write_ansi(&mut s);
    s
}

/// Relies on crossterm's `cursor::MoveToRow`: `CSI y d`, `y` written as given
/// (the terminal reads it as a one-based row).
#[verifier::external_body]
pub(crate) fn move_to_row_ansi(y: u16) -> (r: String)
    ensures
        r@ == csi(decimal(y as nat).push('d')),
{
    let mut s = String::new();
    let _ = crossterm::cursor::MoveToRow(y).write_ansi(&mut s);
    s
}

/// Relies on crossterm's `cursor::MoveUp`: `CSI n A`, nothing for zero cells.
#[verifier::external_body]
pub(crate) fn move_up_ansi(n: u16) -> (r: String)
    ensures
        r@ == relative_move(n, 'A'),
{
    let mut s = String::new();
    let _ = crossterm::cursor::MoveUp(n).write_ansi(&mut s);
    s
}

/// Relies on crossterm's `cursor::MoveDown`: `CSI n B`, nothing for zero cells.
#[verifier::external_body]
pub(crate) fn move_down_ansi(n: u16) -> (r: String)
    ensures
        r@ == relative_move(n, 'B'),
{
    let mut s = String::new();
    let _ = crossterm::cursor::MoveDown(n).write_ansi(&mut s);
    s
}

/// Relies on crossterm's `cursor::MoveRight`: `CSI n C`, nothing for zero cells.
#[verifier::external_body]
pub(crate) fn move_right_ansi(n: u16) -> (r: String)
    ensures
        r@ == relative_move(n, 'C'),
{
    let mut s = String::new();
    let _ = crossterm::cursor::MoveRight(n).write_ansi(&mut s);
    s
}

/// Relies on crossterm's `cursor::MoveLeft`: `CSI n D`, nothing for zero cells.
#[verifier::external_body]
pub(crate) fn move_left_ansi(n: u16) -> (r: String)
    ensures
        r@ == relative_move(n, 'D'),
{
    let mut s = String::new();
    let _ = crossterm::cursor::MoveLeft(n).write_ansi(&mut s);
    s
}

/// Relies on crossterm's `cursor::SavePosition`: `ESC 7`.
#[verifier::external_body]
pub(crate) fn save_position_ansi() -> (r: String)
    ensures
        r@ == seq!['\u{1b}', '7'],
{
    let mut s = String::new();
    let _ = crossterm::cursor::SavePosition.write_ansi(&mut s);
    s
}

/// Relies on crossterm's `cursor::RestorePosition`: `ESC 8`.
#[verifier::external_body]
pub(crate) fn restore_position_ansi() -> (r: String)
    ensures
        r@ == seq!['\u{1b}', '8'],
{
    let mut s = String::new();
    let _ = crossterm::cursor::RestorePosition.write_ansi(&mut s);
    s
}

/// Relies on crossterm's `style::SetForegroundColor`: `CSI 38 ; params m`.
#[verifier::external_body]
pub(crate) fn set_foreground_ansi(c: NativeColor) -> (r: String)
    ensures
        r@ == foreground_sequence(c),
{
    let mut s = String::new();
    let _ = crossterm::style::SetForegroundColor(c).write_ansi(&mut s);
    s
}

/// Relies on crossterm's `style::SetBackgroundColor`: `CSI 48 ; params m`.
#[verifier::external_body]
pub(crate) fn set_background_ansi(c: NativeColor) -> (r: String)
    ensures
        r@ == background_sequence(c),
{
    let mut s = String::new();
    let _ = crossterm::style::SetBackgroundColor(c).write_ansi(&mut s);
    s
}

/// Relies on crossterm's `style::ResetColor`: `CSI 0 m`.
#[verifier::external_body]
pub(crate) fn reset_color_ansi() -> (r: String)
    ensures
        r@ == csi(seq!['0', 'm']),
{
    let mut s = String::new();
    let _ = crossterm::style::ResetColor.write_ansi(&mut s);
    s
}

/// Relies on crossterm's `terminal::Clear(ClearType::All)`: `CSI 2 J`.
#[verifier::external_body]
pub(crate) fn clear_all_ansi() -> (r: String)
    ensures
        r@ == csi(seq!['2', 'J']),
{
    let mut s = String::new();
    let _ = crossterm::terminal::Clear(crossterm::terminal::ClearType::All).write_ansi(&mut s);
    s
}

/// Relies on crossterm's `terminal::Clear(ClearType::FromCursorUp)`: `CSI 1 J`.
#[verifier::external_body]
pub(crate) fn clear_from_cursor_up_ansi() -> (r: String)
    ensures
        r@ == csi(seq!['1', 'J']),
{
    let mut s = String::new();
    let _ = crossterm::terminal::Clear(crossterm::terminal::ClearType::FromCursorUp).write_ansi(
        &mut s,
    );
    s
}

/// Relies on crossterm's `style::SetAttribute(Attribute::Italic)`: `CSI 3 m`.
#[verifier::external_body]
pub(crate) fn italic_ansi() -> (r: String)
    ensures
        r@ == csi(seq!['3', 'm']),
{
    let mut s = String::new();
    let _ = crossterm::style::SetAttribute(crossterm::style::Attribute::Italic).write_ansi(&mut s);
    s
}

/// Relies on crossterm's `style::SetAttribute(Attribute::NoItalic)`: `CSI 23 m`.
#[verifier::external_body]
pub(crate) fn no_italic_ansi() -> (r: String)
    ensures
        r@ == csi(seq!['2', '3', 'm']),
{
    let mut s = String::new();
    let _ = crossterm::style::SetAttribute(crossterm::style::Attribute::NoItalic).write_ansi(
        &mut s,
    );
    s
}

/// Relies on crossterm's `event::KeyModifiers::CONTROL`: its bit set is `0b10`.
#[verifier::external_body]
pub(crate) fn control_modifier_bits() -> (r: u8)
    ensures
        r == 2,
{
    crossterm::event::KeyModifiers::CONTROL.bits()
}

} // verus!
