//! What the terminal has been told: the commands in submission order, the text
//! each one puts in the output, and what the cursor commands do to the cursor.

use vstd::prelude::*;

use crate::ansi::{
    background_sequence, csi, decimal, foreground_sequence, mouse_modes, move_to_sequence, osc,
    private_mode, relative_move,
};
use crate::color::{native_color, Color};
use crate::geometry::{Point, Size};

verus! {

/// The two encodings a terminal can use. The general one writes single-cell
/// cursor moves as bare escape sequences; the restricted one sends them as
/// relative moves by one cell.
#[derive(Clone, Copy, Debug, PartialEq, Eq, Structural)]
pub enum Backend {
    General,
    Restricted,
}

/// One of the terminal's colour slots that an OSC sequence sets: the default
/// text foreground, the default background, or the cursor.
#[derive(Clone, Copy, Debug, PartialEq, Eq, Structural)]
pub enum ChromeSlot {
    Foreground,
    Background,
    Cursor,
}

/// A command queued on a terminal.
pub enum Command {
    EnterAlternateScreen,
    LeaveAlternateScreen,
    SetTitle(Seq<char>),
    EnableMouseCapture,
    DisableMouseCapture,
    ShowCursor,
    HideCursor,
    /// Moves to a zero-based cell.
    MoveTo(Point),
    /// Moves to a zero-based column, keeping the row.
    MoveToColumn(u16),
    /// Moves to a zero-based row, keeping the column.
    MoveToRow(u16),
    MoveUp(u16),
    MoveDown(u16),
    MoveLeft(u16),
    MoveRight(u16),
    StepUp,
    StepDown,
    StepLeft,
    StepRight,
    SavePosition,
    RestorePosition,
    SetForeground(Color),
    SetBackground(Color),
    ResetColors,
    ChangeChromeColor(ChromeSlot, Seq<char>),
    ResetChromeColor(ChromeSlot),
    EnableItalic,
    DisableItalic,
    ClearAll,
    ClearFromCursorUp,
}

/// The OSC number of a colour slot: 10, 11 or 12.
pub open spec fn slot_code(s: ChromeSlot) -> Seq<char> {
    match s {
        ChromeSlot::Foreground => seq!['1', '0'],
        ChromeSlot::Background => seq!['1', '1'],
        ChromeSlot::Cursor => seq!['1', '2'],
    }
}

/// `ESC ] code ; # hex BEL`: sets the colour slot to the hexadecimal `hex`.
pub open spec fn change_chrome_sequence(s: ChromeSlot, hex: Seq<char>) -> Seq<char> {
    osc(slot_code(s) + seq![';', '#'] + hex)
}

/// `ESC ] 1 code BEL`: gives the colour slot back its default.
pub open spec fn reset_chrome_sequence(s: ChromeSlot) -> Seq<char> {
    osc(seq!['1'] + slot_code(s))
}

/// A single-cell move ending in `letter`, as `backend` writes it.
pub open spec fn step_sequence(backend: Backend, letter: char) -> Seq<char> {
    match backend {
        Backend::General => csi(seq![letter]),
        Backend::Restricted => relative_move(1, letter),
    }
}

/// The text that `c` puts in the output.
pub open spec fn encode(c: Command, backend: Backend) -> Seq<char> {
    match c {
        Command::EnterAlternateScreen => private_mode(seq!['1', '0', '4', '9'], true),
        Command::LeaveAlternateScreen => private_mode(seq!['1', '0', '4', '9'], false),
        Command::SetTitle(t) => osc(seq!['0', ';'] + t),
        Command::EnableMouseCapture => private_mode(mouse_modes()[0], true) + private_mode(
            mouse_modes()[1],
            true,
        ) + private_mode(mouse_modes()[2], true) + private_mode(mouse_modes()[3], true)
            + private_mode(mouse_modes()[4], true),
        Command::DisableMouseCapture => private_mode(mouse_modes()[4], false) + private_mode(
            mouse_modes()[3],
            false,
        ) + private_mode(mouse_modes()[2], false) + private_mode(mouse_modes()[1], false)
            + private_mode(mouse_modes()[0], false),
        Command::ShowCursor => private_mode(seq!['2', '5'], true),
        Command::HideCursor => private_mode(seq!['2', '5'], false),
        Command::MoveTo(p) => move_to_sequence(p.x, p.y),
        Command::MoveToColumn(x) => csi(decimal((x + 1) as nat).push('G')),
        Command::MoveToRow(y) => csi(decimal((y + 1) as nat).push('d')),
        Command::MoveUp(n) => relative_move(n, 'A'),
        Command::MoveDown(n) => relative_move(n, 'B'),
        Command::MoveLeft(n) => relative_move(n, 'D'),
        Command::MoveRight(n) => relative_move(n, 'C'),
        Command::StepUp => step_sequence(backend, 'A'),
        Command::StepDown => step_sequence(backend, 'B'),
        Command::StepLeft => step_sequence(backend, 'D'),
        Command::StepRight => step_sequence(backend, 'C'),
        Command::SavePosition => seq!['\u{1b}', '7'],
        Command::RestorePosition => seq!['\u{1b}', '8'],
        Command::SetForeground(c) => foreground_sequence(native_color(c)),
        Command::SetBackground(c) => background_sequence(native_color(c)),
        Command::ResetColors => csi(seq!['0', 'm']),
        Command::ChangeChromeColor(s, hex) => change_chrome_sequence(s, hex),
        Command::ResetChromeColor(s) => reset_chrome_sequence(s),
        Command::EnableItalic => csi(seq!['3', 'm']),
        Command::DisableItalic => csi(seq!['2', '3', 'm']),
        Command::ClearAll => csi(seq!['2', 'J']),
        Command::ClearFromCursorUp => csi(seq!['1', 'J']),
    }
}

/// The text that `cs` put in the output, in submission order.
pub open spec fn encode_all(cs: Seq<Command>, backend: Backend) -> Seq<char>
    decreases cs.len(),
{
    if cs.len() == 0 {
        Seq::empty()
    } else {
        encode_all(cs.drop_last(), backend) + encode(cs.last(), backend)
    }
}

/// The text of two runs of commands is the text of the first, then that of the
/// second: output keeps the order in which commands were submitted.
pub proof fn lemma_encode_all_append(a: Seq<Command>, b: Seq<Command>, backend: Backend)
    ensures
        encode_all(a + b, backend) == encode_all(a, backend) + encode_all(b, backend),
    decreases b.len(),
{
    if b.len() == 0 {
        assert(a + b =~= a);
        assert(encode_all(b, backend) =~= Seq::<char>::empty());
        assert(encode_all(a, backend) + encode_all(b, backend) =~= encode_all(a, backend));
    } else {
        assert((a + b).drop_last() =~= a + b.drop_last());
        lemma_encode_all_append(a, b.drop_last(), backend);
        assert((a + b).last() == b.last());
    }
}

/// Where the cursor is, and the one position that a save keeps.
pub struct CursorState {
    pub position: Point,
    pub saved: Option<Point>,
}

/// `v` moved by `delta` and held inside `0 .. limit` (at 0 on a screen of no cells).
pub open spec fn clamp(v: int, limit: u16) -> u16 {
    if v < 0 || limit == 0 {
        0
    } else if v >= limit {
        (limit - 1) as u16
    } else {
        v as u16
    }
}

/// The position `p` moved by `dx` columns and `dy` rows on a screen of `size`.
pub open spec fn shifted(p: Point, dx: int, dy: int, size: Size) -> Point {
    Point { x: clamp(p.x + dx, size.width), y: clamp(p.y + dy, size.height) }
}

/// What `c` does to the cursor on a screen of `size`. Commands that do not
/// move the cursor leave it alone.
pub open spec fn cursor_step(s: CursorState, c: Command, size: Size) -> CursorState {
    match c {
        Command::MoveTo(p) => CursorState {
            position: shifted(p, 0, 0, size),
            ..s
        },
        Command::MoveToColumn(x) => CursorState {
            position: shifted(Point { x, ..s.position }, 0, 0, size),
            ..s
        },
        Command::MoveToRow(y) => CursorState {
            position: shifted(Point { y, ..s.position }, 0, 0, size),
            ..s
        },
        Command::MoveUp(n) => CursorState { position: shifted(s.position, 0, -n, size), ..s },
        Command::MoveDown(n) => CursorState { position: shifted(s.position, 0, n as int, size), ..s },
        Command::MoveLeft(n) => CursorState { position: shifted(s.position, -n, 0, size), ..s },
        Command::MoveRight(n) => CursorState { position: shifted(s.position, n as int, 0, size), ..s },
        Command::StepUp => CursorState { position: shifted(s.position, 0, -1, size), ..s },
        Command::StepDown => CursorState { position: shifted(s.position, 0, 1, size), ..s },
        Command::StepLeft => CursorState { position: shifted(s.position, -1, 0, size), ..s },
        Command::StepRight => CursorState { position: shifted(s.position, 1, 0, size), ..s },
        Command::SavePosition => CursorState { saved: Some(s.position), ..s },
        Command::RestorePosition => match s.saved {
            Some(p) => CursorState { position: p, ..s },
            None => s,
        },
        _ => s,
    }
}

/// The cursor after `cs`, starting from `s`.
pub open spec fn run_cursor(s: CursorState, cs: Seq<Command>, size: Size) -> CursorState
    decreases cs.len(),
{
    if cs.len() == 0 {
        s
    } else {
        cursor_step(run_cursor(s, cs.drop_last(), size), cs.last(), size)
    }
}

/// Running two runs of commands one after the other.
pub proof fn lemma_run_cursor_append(s: CursorState, a: Seq<Command>, b: Seq<Command>, size: Size)
    ensures
        run_cursor(s, a + b, size) == run_cursor(run_cursor(s, a, size), b, size),
    decreases b.len(),
{
    if b.len() == 0 {
        assert(a + b =~= a);
    } else {
        assert((a + b).drop_last() =~= a + b.drop_last());
        lemma_run_cursor_append(s, a, b.drop_last(), size);
        assert((a + b).last() == b.last());
    }
}

/// The saved position is a single slot: after a save, other commands, a second
/// save and a restore, the cursor stands where it stood at the second save, not
/// at the first.
pub proof fn lemma_second_save_wins(
    s: CursorState,
    between: Seq<Command>,
    size: Size,
)
    ensures
        run_cursor(
            s,
            seq![Command::SavePosition] + between + seq![
                Command::SavePosition,
                Command::RestorePosition,
            ],
            size,
        ).position == run_cursor(s, seq![Command::SavePosition] + between, size).position,
{
    let first = seq![Command::SavePosition] + between;
    let tail = seq![Command::SavePosition, Command::RestorePosition];
    lemma_run_cursor_append(s, first, tail, size);
    let mid = run_cursor(s, first, size);
    let one = seq![Command::SavePosition];
    assert(one.drop_last() =~= Seq::<Command>::empty());
    assert(run_cursor(mid, one.drop_last(), size) == mid);
    assert(one.last() == Command::SavePosition);
    assert(run_cursor(mid, one, size) == cursor_step(mid, Command::SavePosition, size));
    assert(tail.drop_last() =~= one);
    assert(tail.last() == Command::RestorePosition);
    assert(run_cursor(mid, tail, size) == cursor_step(
        run_cursor(mid, one, size),
        Command::RestorePosition,
        size,
    ));
}

/// A single-cell move does to the cursor what a relative move by one cell
/// does, whichever backend writes it; the restricted backend writes the very
/// text of that relative move.
pub proof fn lemma_step_is_move_by_one(s: CursorState, size: Size, backend: Backend)
    ensures
        cursor_step(s, Command::StepUp, size) == cursor_step(s, Command::MoveUp(1), size),
        cursor_step(s, Command::StepDown, size) == cursor_step(s, Command::MoveDown(1), size),
        cursor_step(s, Command::StepLeft, size) == cursor_step(s, Command::MoveLeft(1), size),
        cursor_step(s, Command::StepRight, size) == cursor_step(s, Command::MoveRight(1), size),
        encode(Command::StepUp, Backend::Restricted) == encode(Command::MoveUp(1), backend),
        encode(Command::StepDown, Backend::Restricted) == encode(Command::MoveDown(1), backend),
        encode(Command::StepLeft, Backend::Restricted) == encode(Command::MoveLeft(1), backend),
        encode(Command::StepRight, Backend::Restricted) == encode(Command::MoveRight(1), backend),
{
}

} // verus!
