//! The terminal: an ordered output buffer of queued commands and the last
//! known size.

use vstd::prelude::*;

use crate::ansi;
use crate::color::{native_color, Color};
use crate::event::{
    key_from_raw, mouse_kind_from_raw, size_after, translated, Event, MouseEvent, RawEvent,
};
use crate::geometry::{Point, Size};
use crate::ansi::{background_sequence, csi, foreground_sequence, move_to_sequence};
use crate::model::{
    change_chrome_sequence, encode, encode_all, lemma_encode_all_append, reset_chrome_sequence, Backend, ChromeSlot, Command,
};
use crossterm::style::Color as NativeColor;

verus! {

/// The terminal. Every command is appended to one output buffer in the order
/// submitted, structured commands and raw escape sequences alike; nothing is
/// flushed here. The size is the last one a resize event reported, or the
/// one the terminal was made with.
pub struct Terminal {
    out: String,
    size: Size,
    backend: Backend,
    commands: Ghost<Seq<Command>>,
}

/// A terminal seen from outside.
pub struct TerminalView {
    /// The commands queued since the output was last taken.
    pub commands: Seq<Command>,
    /// The text waiting to be written to the device.
    pub output: Seq<char>,
    pub size: Size,
    pub backend: Backend,
}

impl View for Terminal {
    type V = TerminalView;

    closed spec fn view(&self) -> TerminalView {
        TerminalView {
            commands: self.commands@,
            output: self.out@,
            size: self.size,
            backend: self.backend,
        }
    }
}

impl Terminal {
    /// The output is the text of the queued commands, in order.
    pub open spec fn wf(&self) -> bool {
        self@.output == encode_all(self@.commands, self@.backend)
    }

    /// `self` after `c` was queued on `before`.
    pub open spec fn queued(self, before: Terminal, c: Command) -> bool {
        &&& self.wf()
        &&& self@.commands == before@.commands.push(c)
        &&& self@.output == before@.output + encode(c, before@.backend)
        &&& self@.size == before@.size
        &&& self@.backend == before@.backend
    }

    /// A terminal of the given size, with nothing queued.
    pub fn new(size: Size, backend: Backend) -> (r: Terminal)
        ensures
            r.wf(),
            r@.commands == Seq::<Command>::empty(),
            r@.output == Seq::<char>::empty(),
            r@.size == size,
            r@.backend == backend,
    {
        Terminal { out: String::new(), size, backend, commands: Ghost(Seq::empty()) }
    }

    /// The size last reported by a resize event, or given at creation.
    pub fn cached_size(&self) -> (r: Size)
        ensures
            r == self@.size,
    {
        self.size
    }

    /// The encoding this terminal uses.
    pub fn backend(&self) -> (r: Backend)
        ensures
            r == self@.backend,
    {
        self.backend
    }

    /// The text queued so far.
    pub fn output(&self) -> (r: &String)
        ensures
            r@ == self@.output,
    {
        &self.out
    }

    /// Hands out the queued text for writing to the device, leaving the buffer empty.
    pub fn take_output(&mut self) -> (r: String)
        requires
            old(self).wf(),
        ensures
            final(self).wf(),
            r@ == old(self)@.output,
            final(self)@.commands == Seq::<Command>::empty(),
            final(self)@.output == Seq::<char>::empty(),
            final(self)@.size == old(self)@.size,
            final(self)@.backend == old(self)@.backend,
    {
        let mut r = String::new();
        std::mem::swap(&mut r, &mut self.out);
        self.commands = Ghost(Seq::empty());
        r
    }

    fn push(&mut self, text: String, Ghost(c): Ghost<Command>)
        requires
            old(self).wf(),
            text@ == encode(c, old(self)@.backend),
        ensures
            final(self).queued(*old(self), c),
    {
        self.out.append(text.as_str());
        proof {
            let cs = self.commands@.push(c);
            assert(cs.drop_last() =~= self.commands@);
            self.commands = Ghost(cs);
        }
    }

    /// Switches to the alternate screen buffer.
    pub fn enter_alternate_dimension(&mut self)
        requires
            old(self).wf(),
        ensures
            final(self).queued(*old(self), Command::EnterAlternateScreen),
    {
        self.push(ansi::enter_alternate_screen_ansi(), Ghost(Command::EnterAlternateScreen));
    }

    /// Switches back to the primary screen buffer.
    pub fn exit_alternate_dimension(&mut self)
        requires
            old(self).wf(),
        ensures
            final(self).queued(*old(self), Command::LeaveAlternateScreen),
    {
        self.push(ansi::leave_alternate_screen_ansi(), Ghost(Command::LeaveAlternateScreen));
    }

    /// Sets the window title.
    pub fn set_title(&mut self, title: &str)
        requires
            old(self).wf(),
        ensures
            final(self).queued(*old(self), Command::SetTitle(title@)),
    {
        self.push(ansi::set_title_ansi(title), Ghost(Command::SetTitle(title@)));
    }

    /// Asks the terminal to report mouse events.
    pub fn enable_mouse_capture(&mut self)
        requires
            old(self).wf(),
        ensures
            final(self).queued(*old(self), Command::EnableMouseCapture),
    {
        self.push(ansi::enable_mouse_capture_ansi(), Ghost(Command::EnableMouseCapture));
    }

    /// Stops mouse event reports.
    pub fn disable_mouse_capture(&mut self)
        requires
            old(self).wf(),
        ensures
            final(self).queued(*old(self), Command::DisableMouseCapture),
    {
        self.push(ansi::disable_mouse_capture_ansi(), Ghost(Command::DisableMouseCapture));
    }

    /// Makes the cursor visible.
    pub fn show_cursor(&mut self)
        requires
            old(self).wf(),
        ensures
            final(self).queued(*old(self), Command::ShowCursor),
    {
        self.push(ansi::show_cursor_ansi(), Ghost(Command::ShowCursor));
    }

    /// Hides the cursor.
    pub fn hide_cursor(&mut self)
        requires
            old(self).wf(),
        ensures
            final(self).queued(*old(self), Command::HideCursor),
    {
        self.push(ansi::hide_cursor_ansi(), Ghost(Command::HideCursor));
    }

    /// Translates one raw backend event. A resize stores the new size and
    /// yields a payload-free `Resize`; a key outside the model yields `None`.
    /// Nothing is queued.
    pub fn translate_event(&mut self, raw: RawEvent) -> (r: Option<Event>)
        requires
            old(self).wf(),
        ensures
            final(self).wf(),
            r == translated(raw),
            final(self)@.size == size_after(old(self)@.size, raw),
            final(self)@.commands == old(self)@.commands,
            final(self)@.output == old(self)@.output,
            final(self)@.backend == old(self)@.backend,
    {
        match raw {
            RawEvent::Key { code, modifiers } => match key_from_raw(code, modifiers) {
                Some(k) => Some(Event::Key(k)),
                None => None,
            },
            RawEvent::Mouse { kind, column, row } => Some(
                Event::Mouse(
                    MouseEvent { kind: mouse_kind_from_raw(kind), point: Point { x: column, y: row } },
                ),
            ),
            RawEvent::Resize { width, height } => {
                self.size = Size { width, height };
                Some(Event::Resize)
            },
        }
    }

    /// Sets the cursor to `point`. The backend adds one to each coordinate,
    /// so neither may be `u16::MAX`.
    pub fn set_cursor(&mut self, point: Point)
        requires
            old(self).wf(),
            point.x < u16::MAX,
            point.y < u16::MAX,
        ensures
            final(self).queued(*old(self), Command::MoveTo(point)),
    {
        self.push(ansi::move_to_ansi(point.x, point.y), Ghost(Command::MoveTo(point)));
    }

    /// Sets the cursor X-coordinate to the zero-based `x`. The terminal counts
    /// columns from one, so `x + 1` is written, and `x` may not be `u16::MAX`.
    pub fn set_cursor_x(&mut self, x: u16)
        requires
            old(self).wf(),
            x < u16::MAX,
        ensures
            final(self).queued(*old(self), Command::MoveToColumn(x)),
    {
        self.push(ansi::move_to_column_ansi(x + 1), Ghost(Command::MoveToColumn(x)));
    }

    /// Sets the cursor Y-coordinate to the zero-based `y`. The terminal counts
    /// rows from one, so `y + 1` is written, and `y` may not be `u16::MAX`.
    pub fn set_cursor_y(&mut self, y: u16)
        requires
            old(self).wf(),
            y < u16::MAX,
        ensures
            final(self).queued(*old(self), Command::MoveToRow(y)),
    {
        self.push(ansi::move_to_row_ansi(y + 1), Ghost(Command::MoveToRow(y)));
    }

    /// Moves the cursor `cells` rows up; nothing is written for zero.
    pub fn move_cursor_up_by(&mut self, cells: u16)
        requires
            old(self).wf(),
        ensures
            final(self).queued(*old(self), Command::MoveUp(cells)),
    {
        self.push(ansi::move_up_ansi(cells), Ghost(Command::MoveUp(cells)));
    }

    /// Moves the cursor `cells` rows down; nothing is written for zero.
    pub fn move_cursor_down_by(&mut self, cells: u16)
        requires
            old(self).wf(),
        ensures
            final(self).queued(*old(self), Command::MoveDown(cells)),
    {
        self.push(ansi::move_down_ansi(cells), Ghost(Command::MoveDown(cells)));
    }

    /// Moves the cursor `cells` columns left; nothing is written for zero.
    pub fn move_cursor_left_by(&mut self, cells: u16)
        requires
            old(self).wf(),
        ensures
            final(self).queued(*old(self), Command::MoveLeft(cells)),
    {
        self.push(ansi::move_left_ansi(cells), Ghost(Command::MoveLeft(cells)));
    }

    /// Moves the cursor `cells` columns right; nothing is written for zero.
    pub fn move_cursor_right_by(&mut self, cells: u16)
        requires
            old(self).wf(),
        ensures
            final(self).queued(*old(self), Command::MoveRight(cells)),
    {
        self.push(ansi::move_right_ansi(cells), Ghost(Command::MoveRight(cells)));
    }

    /// Moves the cursor one cell up: on the general backend as the bare
    /// sequence `ESC [ A`, on the restricted one as a relative move by one.
    pub fn move_cursor_up(&mut self)
        requires
            old(self).wf(),
        ensures
            final(self).queued(*old(self), Command::StepUp),
    {
        let text = match self.backend {
            Backend::General => {
                proof {
                    reveal_strlit("\u{1b}[A");
                }
                let t = String::from_str("\u{1b}[A");
                assert(t@ =~= csi(seq!['A']));
                t
            },
            Backend::Restricted => ansi::move_up_ansi(1),
        };
        self.push(text, Ghost(Command::StepUp));
    }

    /// Moves the cursor one cell down: on the general backend as the bare
    /// sequence `ESC [ B`, on the restricted one as a relative move by one.
    pub fn move_cursor_down(&mut self)
        requires
            old(self).wf(),
        ensures
            final(self).queued(*old(self), Command::StepDown),
    {
        let text = match self.backend {
            Backend::General => {
                proof {
                    reveal_strlit("\u{1b}[B");
                }
                let t = String::from_str("\u{1b}[B");
                assert(t@ =~= csi(seq!['B']));
                t
            },
            Backend::Restricted => ansi::move_down_ansi(1),
        };
        self.push(text, Ghost(Command::StepDown));
    }

    /// Moves the cursor one cell left: on the general backend as the bare
    /// sequence `ESC [ D`, on the restricted one as a relative move by one.
    pub fn move_cursor_left(&mut self)
        requires
            old(self).wf(),
        ensures
            final(self).queued(*old(self), Command::StepLeft),
    {
        let text = match self.backend {
            Backend::General => {
                proof {
                    reveal_strlit("\u{1b}[D");
                }
                let t = String::from_str("\u{1b}[D");
                assert(t@ =~= csi(seq!['D']));
                t
            },
            Backend::Restricted => ansi::move_left_ansi(1),
        };
        self.push(text, Ghost(Command::StepLeft));
    }

    /// Moves the cursor one cell right: on the general backend as the bare
    /// sequence `ESC [ C`, on the restricted one as a relative move by one.
    pub fn move_cursor_right(&mut self)
        requires
            old(self).wf(),
        ensures
            final(self).queued(*old(self), Command::StepRight),
    {
        let text = match self.backend {
            Backend::General => {
                proof {
                    reveal_strlit("\u{1b}[C");
                }
                let t = String::from_str("\u{1b}[C");
                assert(t@ =~= csi(seq!['C']));
                t
            },
            Backend::Restricted => ansi::move_right_ansi(1),
        };
        self.push(text, Ghost(Command::StepRight));
    }

    /// Saves the cursor position in the terminal's single slot, replacing
    /// whatever a previous save left there.
    pub fn save_cursor_point(&mut self)
        requires
            old(self).wf(),
        ensures
            final(self).queued(*old(self), Command::SavePosition),
    {
        self.push(ansi::save_position_ansi(), Ghost(Command::SavePosition));
    }

    /// Moves the cursor back to the position last saved.
    pub fn restore_cursor_point(&mut self)
        requires
            old(self).wf(),
        ensures
            final(self).queued(*old(self), Command::RestorePosition),
    {
        self.push(ansi::restore_position_ansi(), Ghost(Command::RestorePosition));
    }

    /// Sets the text foreground colour.
    pub fn set_foreground_color(&mut self, color: Color)
        requires
            old(self).wf(),
        ensures
            final(self).queued(*old(self), Command::SetForeground(color)),
    {
        self.push(
            ansi::set_foreground_ansi(Self::convert_color(color)),
            Ghost(Command::SetForeground(color)),
        );
    }

    /// Sets the text background colour.
    pub fn set_background_color(&mut self, color: Color)
        requires
            old(self).wf(),
        ensures
            final(self).queued(*old(self), Command::SetBackground(color)),
    {
        self.push(
            ansi::set_background_ansi(Self::convert_color(color)),
            Ghost(Command::SetBackground(color)),
        );
    }

    fn write_chrome_color(&mut self, slot: ChromeSlot, hex_color: &str)
        requires
            old(self).wf(),
        ensures
            final(self).queued(*old(self), Command::ChangeChromeColor(slot, hex_color@)),
    {
        let mut text = match slot {
            ChromeSlot::Foreground => {
                proof {
                    reveal_strlit("\u{1b}]10;#");
                }
                String::from_str("\u{1b}]10;#")
            },
            ChromeSlot::Background => {
                proof {
                    reveal_strlit("\u{1b}]11;#");
                }
                String::from_str("\u{1b}]11;#")
            },
            ChromeSlot::Cursor => {
                proof {
                    reveal_strlit("\u{1b}]12;#");
                }
                String::from_str("\u{1b}]12;#")
            },
        };
        text.append(hex_color);
        proof {
            reveal_strlit("\u{7}");
        }
        text.append("\u{7}");
        assert(text@ =~= change_chrome_sequence(slot, hex_color@));
        self.push(text, Ghost(Command::ChangeChromeColor(slot, hex_color@)));
    }

    fn write_chrome_reset(&mut self, slot: ChromeSlot)
        requires
            old(self).wf(),
        ensures
            final(self).queued(*old(self), Command::ResetChromeColor(slot)),
    {
        let text = match slot {
            ChromeSlot::Foreground => {
                proof {
                    reveal_strlit("\u{1b}]110\u{7}");
                }
                String::from_str("\u{1b}]110\u{7}")
            },
            ChromeSlot::Background => {
                proof {
                    reveal_strlit("\u{1b}]111\u{7}");
                }
                String::from_str("\u{1b}]111\u{7}")
            },
            ChromeSlot::Cursor => {
                proof {
                    reveal_strlit("\u{1b}]112\u{7}");
                }
                String::from_str("\u{1b}]112\u{7}")
            },
        };
        assert(text@ =~= reset_chrome_sequence(slot));
        self.push(text, Ghost(Command::ResetChromeColor(slot)));
    }

    /// Changes the terminal's foreground text colour to `hex_color`, a
    /// hexadecimal colour such as `"FF0000"`, written as given.
    pub fn change_foreground_color(&mut self, hex_color: &str)
        requires
            old(self).wf(),
        ensures
            final(self).queued(
                *old(self),
                Command::ChangeChromeColor(ChromeSlot::Foreground, hex_color@),
            ),
    {
        self.write_chrome_color(ChromeSlot::Foreground, hex_color);
    }

    /// Gives the terminal's foreground text colour back its default.
    pub fn reset_foreground_color(&mut self)
        requires
            old(self).wf(),
        ensures
            final(self).queued(*old(self), Command::ResetChromeColor(ChromeSlot::Foreground)),
    {
        self.write_chrome_reset(ChromeSlot::Foreground);
    }

    /// Changes the terminal's background colour to `hex_color`, a
    /// hexadecimal colour such as `"FF0000"`, written as given.
    pub fn change_background_color(&mut self, hex_color: &str)
        requires
            old(self).wf(),
        ensures
            final(self).queued(
                *old(self),
                Command::ChangeChromeColor(ChromeSlot::Background, hex_color@),
            ),
    {
        self.write_chrome_color(ChromeSlot::Background, hex_color);
    }

    /// Gives the terminal's background colour back its default.
    pub fn reset_background_color(&mut self)
        requires
            old(self).wf(),
        ensures
            final(self).queued(*old(self), Command::ResetChromeColor(ChromeSlot::Background)),
    {
        self.write_chrome_reset(ChromeSlot::Background);
    }

    /// Changes the terminal's cursor colour to `hex_color`, a hexadecimal
    /// colour such as `"FF0000"`, written as given.
    pub fn change_cursor_color(&mut self, hex_color: &str)
        requires
            old(self).wf(),
        ensures
            final(self).queued(
                *old(self),
                Command::ChangeChromeColor(ChromeSlot::Cursor, hex_color@),
            ),
    {
        self.write_chrome_color(ChromeSlot::Cursor, hex_color);
    }

    /// Gives the terminal's cursor colour back its default.
    pub fn reset_cursor_color(&mut self)
        requires
            old(self).wf(),
        ensures
            final(self).queued(*old(self), Command::ResetChromeColor(ChromeSlot::Cursor)),
    {
        self.write_chrome_reset(ChromeSlot::Cursor);
    }

    /// Turns italic text on.
    pub fn enable_italic(&mut self)
        requires
            old(self).wf(),
        ensures
            final(self).queued(*old(self), Command::EnableItalic),
    {
        self.push(ansi::italic_ansi(), Ghost(Command::EnableItalic));
    }

    /// Turns italic text off.
    pub fn disable_italic(&mut self)
        requires
            old(self).wf(),
        ensures
            final(self).queued(*old(self), Command::DisableItalic),
    {
        self.push(ansi::no_italic_ansi(), Ghost(Command::DisableItalic));
    }

    /// The backend's colour for `color`.
    pub fn convert_color(color: Color) -> (r: NativeColor)
        ensures
            r == native_color(color),
    {
        match color {
            Color::Black => NativeColor::Black,
            Color::DarkGray => NativeColor::DarkGrey,
            Color::Red => NativeColor::Red,
            Color::DarkRed => NativeColor::DarkRed,
            Color::Green => NativeColor::Green,
            Color::DarkGreen => NativeColor::DarkGreen,
            Color::Yellow => NativeColor::Yellow,
            Color::DarkYellow => NativeColor::DarkYellow,
            Color::Blue => NativeColor::Blue,
            Color::DarkBlue => NativeColor::DarkBlue,
            Color::Magenta => NativeColor::Magenta,
            Color::DarkMagenta => NativeColor::DarkMagenta,
            Color::Cyan => NativeColor::Cyan,
            Color::DarkCyan => NativeColor::DarkCyan,
            Color::White => NativeColor::White,
            Color::Gray => NativeColor::Grey,
            Color::Rgb { r, g, b } => NativeColor::Rgb { r, g, b },
            Color::Byte(v) => NativeColor::AnsiValue(v),
        }
    }

    /// Resets the text colours to the terminal's defaults.
    pub fn reset_colors(&mut self)
        requires
            old(self).wf(),
        ensures
            final(self).queued(*old(self), Command::ResetColors),
    {
        self.push(ansi::reset_color_ansi(), Ghost(Command::ResetColors));
    }

    /// Clears the whole screen.
    pub fn clear(&mut self)
        requires
            old(self).wf(),
        ensures
            final(self).queued(*old(self), Command::ClearAll),
    {
        self.push(ansi::clear_all_ansi(), Ghost(Command::ClearAll));
    }

    /// Clears from the cursor up to the start of the screen.
    pub fn clear_from_cursor_to_end(&mut self)
        requires
            old(self).wf(),
        ensures
            final(self).queued(*old(self), Command::ClearFromCursorUp),
    {
        self.push(ansi::clear_from_cursor_up_ansi(), Ghost(Command::ClearFromCursorUp));
    }
}

/// Commands come out in the order they were submitted: a foreground colour,
/// then a background colour, then a cursor move put their text in the output
/// one after another, behind what was there, and taking the output hands out
/// that text in that order. Any point that `set_cursor` accepts qualifies.
pub proof fn lemma_submission_order(
    t0: Terminal,
    t1: Terminal,
    t2: Terminal,
    t3: Terminal,
    fg: Color,
    bg: Color,
    p: Point,
)
    requires
        t0.wf(),
        t1.queued(t0, Command::SetForeground(fg)),
        t2.queued(t1, Command::SetBackground(bg)),
        t3.queued(t2, Command::MoveTo(p)),
    ensures
        t3@.commands == t0@.commands + seq![
            Command::SetForeground(fg),
            Command::SetBackground(bg),
            Command::MoveTo(p),
        ],
        t3@.output == t0@.output + encode(Command::SetForeground(fg), t0@.backend) + encode(
            Command::SetBackground(bg),
            t0@.backend,
        ) + encode(Command::MoveTo(p), t0@.backend),
        t3@.output == t0@.output + foreground_sequence(native_color(fg)) + background_sequence(
            native_color(bg),
        ) + move_to_sequence(p.x, p.y),
        t3@.output == encode_all(t0@.commands, t0@.backend) + encode_all(
            seq![Command::SetForeground(fg), Command::SetBackground(bg), Command::MoveTo(p)],
            t0@.backend,
        ),
{
    let added = seq![Command::SetForeground(fg), Command::SetBackground(bg), Command::MoveTo(p)];
    assert(t3@.commands =~= t0@.commands + added);
    lemma_encode_all_append(t0@.commands, added, t0@.backend);
}

} // verus!
