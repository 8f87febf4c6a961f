use crossterm::event::{KeyCode, KeyModifiers, MouseButton as RawButton, MouseEventKind as RawKind};
use crossterm::style::Color as NativeColor;
use terminal::color::Color;
use terminal::event::{
    key_from_raw, mouse_kind_from_raw, Event, KeyEvent, KeyModifier, MouseButton, MouseEvent,
    MouseEventKind, RawEvent,
};
use terminal::geometry::{Point, Size};
use terminal::model::Backend;
use terminal::terminal::Terminal;

fn general() -> Terminal {
    Terminal::new(Size { width: 80, height: 24 }, Backend::General)
}

fn restricted() -> Terminal {
    Terminal::new(Size { width: 80, height: 24 }, Backend::Restricted)
}

fn control() -> u8 {
    KeyModifiers::CONTROL.bits()
}

fn all_colors() -> Vec<Color> {
    vec![
        Color::Black,
        Color::DarkGray,
        Color::Red,
        Color::DarkRed,
        Color::Green,
        Color::DarkGreen,
        Color::Yellow,
        Color::DarkYellow,
        Color::Blue,
        Color::DarkBlue,
        Color::Magenta,
        Color::DarkMagenta,
        Color::Cyan,
        Color::DarkCyan,
        Color::White,
        Color::Gray,
        Color::Rgb { r: 1, g: 2, b: 3 },
        Color::Byte(200),
    ]
}

#[test]
fn color_conversion_is_deterministic_and_total() {
    let colors = all_colors();
    let natives: Vec<NativeColor> = colors.iter().map(|c| Terminal::convert_color(*c)).collect();
    for (i, c) in colors.iter().enumerate() {
        assert_eq!(Terminal::convert_color(*c), natives[i]);
        assert_ne!(natives[i], NativeColor::Reset);
        for j in 0..colors.len() {
            if i != j {
                assert_ne!(natives[i], natives[j]);
            }
        }
    }
    assert_eq!(Terminal::convert_color(Color::DarkGray), NativeColor::DarkGrey);
    assert_eq!(Terminal::convert_color(Color::Gray), NativeColor::Grey);
    assert_eq!(
        Terminal::convert_color(Color::Rgb { r: 10, g: 20, b: 30 }),
        NativeColor::Rgb { r: 10, g: 20, b: 30 }
    );
    assert_eq!(Terminal::convert_color(Color::Byte(42)), NativeColor::AnsiValue(42));
}

#[test]
fn mouse_events_keep_kind_and_position() {
    let buttons = [
        (RawButton::Left, MouseButton::Left),
        (RawButton::Middle, MouseButton::Middle),
        (RawButton::Right, MouseButton::Right),
    ];
    let mut cases = vec![
        (RawKind::Moved, MouseEventKind::Move),
        (RawKind::ScrollUp, MouseEventKind::ScrollUp),
        (RawKind::ScrollDown, MouseEventKind::ScrollDown),
    ];
    for (raw, ours) in buttons.iter() {
        cases.push((RawKind::Drag(*raw), MouseEventKind::Drag(*ours)));
        cases.push((RawKind::Down(*raw), MouseEventKind::Press(*ours)));
        cases.push((RawKind::Up(*raw), MouseEventKind::Release(*ours)));
    }
    let mut t = general();
    for (raw, ours) in cases {
        assert_eq!(mouse_kind_from_raw(raw), ours);
        let r = t.translate_event(RawEvent::Mouse { kind: raw, column: 17, row: 5 });
        assert_eq!(
            r,
            Some(Event::Mouse(MouseEvent { kind: ours, point: Point { x: 17, y: 5 } }))
        );
    }
    let r = t.translate_event(RawEvent::Mouse { kind: RawKind::Moved, column: 65535, row: 0 });
    assert_eq!(
        r,
        Some(Event::Mouse(MouseEvent { kind: MouseEventKind::Move, point: Point { x: 65535, y: 0 } }))
    );
    assert_eq!(t.cached_size(), Size { width: 80, height: 24 });
    assert!(t.output().is_empty());
}

#[test]
fn control_w_is_backspace() {
    let mut t = general();
    let r = t.translate_event(RawEvent::Key { code: KeyCode::Char('w'), modifiers: control() });
    assert_eq!(r, Some(Event::Key(KeyEvent::Backspace(Some(KeyModifier::Control)))));
    assert_ne!(r, Some(Event::Key(KeyEvent::Char('w', Some(KeyModifier::Control)))));
    let plain = t.translate_event(RawEvent::Key { code: KeyCode::Char('w'), modifiers: 0 });
    assert_eq!(plain, Some(Event::Key(KeyEvent::Char('w', None))));
}

#[test]
fn char_keys_carry_control_only_when_pressed() {
    let mut t = general();
    let a = t.translate_event(RawEvent::Key { code: KeyCode::Char('a'), modifiers: 0 });
    assert_eq!(a, Some(Event::Key(KeyEvent::Char('a', None))));
    let ca = t.translate_event(RawEvent::Key { code: KeyCode::Char('a'), modifiers: control() });
    assert_eq!(ca, Some(Event::Key(KeyEvent::Char('a', Some(KeyModifier::Control)))));
    let shifted = KeyModifiers::SHIFT.bits();
    assert_eq!(key_from_raw(KeyCode::Char('A'), shifted), Some(KeyEvent::Char('A', None)));
    let both = (KeyModifiers::CONTROL | KeyModifiers::ALT).bits();
    assert_eq!(key_from_raw(KeyCode::Char('w'), both), Some(KeyEvent::Char('w', None)));
}

#[test]
fn named_keys_translate() {
    assert_eq!(key_from_raw(KeyCode::Left, 0), Some(KeyEvent::Left));
    assert_eq!(key_from_raw(KeyCode::Right, 0), Some(KeyEvent::Right));
    assert_eq!(key_from_raw(KeyCode::Up, 0), Some(KeyEvent::Up));
    assert_eq!(key_from_raw(KeyCode::Down, 0), Some(KeyEvent::Down));
    assert_eq!(key_from_raw(KeyCode::Tab, 0), Some(KeyEvent::Tab));
    assert_eq!(key_from_raw(KeyCode::Enter, 0), Some(KeyEvent::Enter));
    assert_eq!(key_from_raw(KeyCode::F(5), 0), Some(KeyEvent::F(5)));
    assert_eq!(key_from_raw(KeyCode::Backspace, 0), Some(KeyEvent::Backspace(None)));
    assert_eq!(key_from_raw(KeyCode::Backspace, control()), Some(KeyEvent::Backspace(None)));
    assert_eq!(key_from_raw(KeyCode::Esc, 0), Some(KeyEvent::Esc));
}

#[test]
fn resize_updates_cached_size() {
    let mut t = general();
    let r = t.translate_event(RawEvent::Resize { width: 120, height: 40 });
    assert_eq!(r, Some(Event::Resize));
    assert_eq!(t.cached_size(), Size { width: 120, height: 40 });
    let again = t.cached_size();
    assert_eq!(again.width, 120);
    assert_eq!(again.height, 40);
    assert!(t.output().is_empty());
}

#[test]
fn queued_commands_keep_order() {
    let mut t = general();
    t.set_foreground_color(Color::Red);
    t.set_background_color(Color::Rgb { r: 0, g: 128, b: 255 });
    t.set_cursor(Point { x: 10, y: 5 });
    assert_eq!(t.take_output(), "\u{1b}[38;5;9m\u{1b}[48;2;0;128;255m\u{1b}[6;11H");
    assert!(t.output().is_empty());
}

#[test]
fn raw_and_structured_writes_share_one_buffer() {
    let mut t = general();
    t.hide_cursor();
    t.change_cursor_color("00FF00");
    t.move_cursor_up();
    t.show_cursor();
    assert_eq!(t.output().as_str(), "\u{1b}[?25l\u{1b}]12;#00FF00\u{7}\u{1b}[A\u{1b}[?25h");
}

#[test]
fn foreground_chrome_color_sequences() {
    let mut t = general();
    t.change_foreground_color("FF00FF");
    assert_eq!(t.take_output(), "\u{1b}]10;#FF00FF\u{7}");
    t.reset_foreground_color();
    assert_eq!(t.take_output(), "\u{1b}]110\u{7}");
}

#[test]
fn background_and_cursor_chrome_color_sequences() {
    let mut t = general();
    t.change_background_color("000000");
    t.reset_background_color();
    t.change_cursor_color("not-hex");
    t.reset_cursor_color();
    assert_eq!(
        t.take_output(),
        "\u{1b}]11;#000000\u{7}\u{1b}]111\u{7}\u{1b}]12;#not-hex\u{7}\u{1b}]112\u{7}"
    );
}

#[test]
fn unknown_key_is_dropped() {
    let mut t = general();
    t.translate_event(RawEvent::Resize { width: 100, height: 30 });
    for code in [KeyCode::Home, KeyCode::End, KeyCode::PageUp, KeyCode::Delete, KeyCode::Null] {
        assert_eq!(t.translate_event(RawEvent::Key { code, modifiers: 0 }), None);
        assert_eq!(t.cached_size(), Size { width: 100, height: 30 });
    }
    assert_eq!(key_from_raw(KeyCode::Insert, control()), None);
}

#[test]
fn second_save_overwrites_first() {
    let mut t = general();
    t.set_cursor(Point { x: 0, y: 0 });
    t.save_cursor_point();
    t.set_cursor(Point { x: 4, y: 2 });
    t.save_cursor_point();
    t.restore_cursor_point();
    assert_eq!(t.take_output(), "\u{1b}[1;1H\u{1b}7\u{1b}[3;5H\u{1b}7\u{1b}8");
}

#[test]
fn single_cell_moves_by_backend() {
    let mut g = general();
    g.move_cursor_up();
    g.move_cursor_down();
    g.move_cursor_left();
    g.move_cursor_right();
    assert_eq!(g.take_output(), "\u{1b}[A\u{1b}[B\u{1b}[D\u{1b}[C");
    let mut r = restricted();
    r.move_cursor_up();
    r.move_cursor_down();
    r.move_cursor_left();
    r.move_cursor_right();
    assert_eq!(r.take_output(), "\u{1b}[1A\u{1b}[1B\u{1b}[1D\u{1b}[1C");
    assert_eq!(r.backend(), Backend::Restricted);
}

#[test]
fn relative_moves() {
    let mut t = general();
    t.move_cursor_up_by(3);
    t.move_cursor_down_by(12);
    t.move_cursor_left_by(7);
    t.move_cursor_right_by(65535);
    t.move_cursor_up_by(0);
    assert_eq!(t.take_output(), "\u{1b}[3A\u{1b}[12B\u{1b}[7D\u{1b}[65535C");
}

#[test]
fn absolute_moves() {
    let mut t = general();
    t.set_cursor_x(0);
    t.set_cursor_y(99);
    t.set_cursor(Point { x: 65534, y: 65534 });
    t.set_cursor_x(65534);
    t.set_cursor_y(0);
    assert_eq!(
        t.take_output(),
        "\u{1b}[1G\u{1b}[100d\u{1b}[65535;65535H\u{1b}[65535G\u{1b}[1d"
    );
}

#[test]
fn mode_toggles() {
    let mut t = general();
    t.enter_alternate_dimension();
    t.exit_alternate_dimension();
    t.set_title("hello");
    t.enable_mouse_capture();
    t.disable_mouse_capture();
    assert_eq!(
        t.take_output(),
        "\u{1b}[?1049h\u{1b}[?1049l\u{1b}]0;hello\u{7}\
         \u{1b}[?1000h\u{1b}[?1002h\u{1b}[?1003h\u{1b}[?1015h\u{1b}[?1006h\
         \u{1b}[?1006l\u{1b}[?1015l\u{1b}[?1003l\u{1b}[?1002l\u{1b}[?1000l"
    );
}

#[test]
fn text_attributes_and_clearing() {
    let mut t = general();
    t.enable_italic();
    t.disable_italic();
    t.reset_colors();
    t.clear();
    t.clear_from_cursor_to_end();
    assert_eq!(t.take_output(), "\u{1b}[3m\u{1b}[23m\u{1b}[0m\u{1b}[2J\u{1b}[1J");
}

#[test]
fn every_color_has_a_sequence() {
    let expected_fg = [
        "5;0", "5;8", "5;9", "5;1", "5;10", "5;2", "5;11", "5;3", "5;12", "5;4", "5;13", "5;5",
        "5;14", "5;6", "5;15", "5;7", "2;1;2;3", "5;200",
    ];
    for (c, params) in all_colors().iter().zip(expected_fg.iter()) {
        let mut t = general();
        t.set_foreground_color(*c);
        t.set_background_color(*c);
        assert_eq!(t.take_output(), format!("\u{1b}[38;{}m\u{1b}[48;{}m", params, params));
    }
}

#[test]
fn new_terminal_is_empty() {
    let t = Terminal::new(Size { width: 0, height: 0 }, Backend::General);
    assert!(t.output().is_empty());
    assert_eq!(t.cached_size(), Size { width: 0, height: 0 });
    assert_eq!(t.backend(), Backend::General);
}
