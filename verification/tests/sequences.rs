use lcd1602_rgb::command::{char_byte, Command};
use lcd1602_rgb::display::Display;
use lcd1602_rgb::sequence::{handshake_steps, text_steps};
use lcd1602_rgb::step::{command_step, data_step, delay_step, frame, register_step, Step};
use lcd1602_rgb::transaction::{Error, Transaction};

const LCD: u8 = 0x3E;
const RGB: u8 = 0x60;

fn write(address: u8, first: u8, second: u8) -> Step {
    Step::Write { address, payload: vec![first, second] }
}

fn delay(ms: u16) -> Step {
    Step::Delay { ms }
}

fn ready() -> Display {
    let mut handshake: Transaction<u8> = Transaction::power_on();
    while !handshake.is_settled() {
        handshake.report(Ok(()));
    }
    match Display::new(handshake) {
        Ok(display) => display,
        Err(_) => panic!("handshake without failure gave no display"),
    }
}

fn chars_of(text: &str) -> Vec<Step> {
    let mut steps = Vec::new();
    for c in text.chars() {
        steps.push(write(LCD, 0x40, c as u32 as u8));
        steps.push(delay(5));
    }
    steps
}

#[test]
fn frames_hold_control_byte_then_payload() {
    assert_eq!(frame(9, 1, 2), write(9, 1, 2));
    assert_eq!(command_step(LCD, 0x01), write(LCD, 0x80, 0x01));
    assert_eq!(data_step(LCD, b'A'), write(LCD, 0x40, 0x41));
    assert_eq!(register_step(RGB, 0x04, 200), write(RGB, 0x04, 200));
    assert_eq!(delay_step(5), delay(5));
}

#[test]
fn command_bytes() {
    assert_eq!(Command::ClearDisplay.encode(), 0x01);
    assert_eq!(Command::ReturnHome.encode(), 0x02);
    assert_eq!(Command::EntryMode { left_to_right: true, shift: false }.encode(), 0x06);
    assert_eq!(Command::EntryMode { left_to_right: false, shift: true }.encode(), 0x05);
    assert_eq!(Command::EntryMode { left_to_right: false, shift: false }.encode(), 0x04);
    assert_eq!(
        Command::DisplayControl { display: true, cursor: false, blink: false }.encode(),
        0x0C
    );
    assert_eq!(
        Command::DisplayControl { display: true, cursor: true, blink: true }.encode(),
        0x0F
    );
    assert_eq!(
        Command::DisplayControl { display: false, cursor: false, blink: false }.encode(),
        0x08
    );
    assert_eq!(Command::FunctionSet { eight_bit: true, two_line: true }.encode(), 0x38);
    assert_eq!(Command::FunctionSet { eight_bit: false, two_line: true }.encode(), 0x28);
    assert_eq!(Command::FunctionSet { eight_bit: true, two_line: false }.encode(), 0x30);
}

#[test]
fn char_byte_keeps_low_eight_bits() {
    assert_eq!(char_byte('A'), 0x41);
    assert_eq!(char_byte('\u{00E9}'), 0xE9);
    assert_eq!(char_byte('\u{20AC}'), 0xAC);
    assert_eq!(char_byte('\u{0100}'), 0x00);
    assert_eq!(char_byte('\u{1F600}'), 0x00);
}

#[test]
fn handshake_is_the_power_on_sequence() {
    let expected = vec![
        delay(50),
        write(LCD, 0x80, 0x06),
        delay(10),
        write(LCD, 0x80, 0x38),
        delay(10),
        write(LCD, 0x80, 0x06),
        delay(10),
        write(LCD, 0x80, 0x38),
        delay(10),
        write(LCD, 0x80, 0x06),
        delay(10),
        write(LCD, 0x80, 0x38),
        delay(10),
        write(LCD, 0x80, 0x0C),
        delay(10),
        write(RGB, 0x00, 0x00),
        write(RGB, 0x01, 0x20),
        write(RGB, 0x08, 0xFF),
        write(LCD, 0x80, 0x01),
        delay(5),
        write(RGB, 0x04, 0),
        write(RGB, 0x03, 0),
        write(RGB, 0x02, 0),
    ];
    assert_eq!(handshake_steps(LCD, RGB), expected);
    let handshake: Transaction<u8> = Transaction::power_on();
    assert!(handshake.is_handshake());
    assert_eq!(handshake.steps(), &expected);
}

#[test]
fn display_has_the_fixed_addresses() {
    let display = ready();
    assert_eq!(display.controller_address(), 62);
    assert_eq!(display.backlight_address(), 96);
}

#[test]
fn set_cursor_issues_one_command_for_every_cell() {
    let display = ready();
    for column in 0u8..16 {
        let top: Transaction<u8> = display.set_cursor(0, column).unwrap();
        assert_eq!(top.steps(), &vec![write(LCD, 0x80, 0x80 | column)]);
        assert_eq!(top.steps(), &vec![write(LCD, 0x80, 0x80 + column)]);
        let bottom: Transaction<u8> = display.set_cursor(1, column).unwrap();
        assert_eq!(bottom.steps(), &vec![write(LCD, 0x80, 0xC0 | column)]);
        assert!(!top.is_handshake());
    }
    let cell: Transaction<u8> = display.set_cursor(1, 5).unwrap();
    assert_eq!(cell.steps(), &vec![write(LCD, 0x80, 0xC5)]);
}

#[test]
fn set_cursor_refuses_cells_off_the_display() {
    let display = ready();
    for (row, column) in [(0u8, 16u8), (1, 16), (2, 0), (2, 16), (255, 255), (0, 255), (255, 0)] {
        match display.set_cursor::<u8>(row, column) {
            Err(Error::InvalidCoordinate) => {}
            _ => panic!("cell ({}, {}) was not refused", row, column),
        }
    }
}

#[test]
fn backlight_colour_writes_red_green_blue() {
    let display = ready();
    let colour: Transaction<u8> = display.backlight_colour(10, 20, 30);
    assert_eq!(
        colour.steps(),
        &vec![write(RGB, 0x04, 10), write(RGB, 0x03, 20), write(RGB, 0x02, 30)]
    );
    let bright: Transaction<u8> = display.backlight_colour(255, 0, 255);
    assert_eq!(
        bright.steps(),
        &vec![write(RGB, 0x04, 255), write(RGB, 0x03, 0), write(RGB, 0x02, 255)]
    );
}

#[test]
fn clear_is_command_and_settle_time() {
    let display = ready();
    let clear: Transaction<u8> = display.clear();
    assert_eq!(clear.steps(), &vec![write(LCD, 0x80, 0x01), delay(5)]);
}

#[test]
fn write_char_is_data_and_settle_time() {
    let display = ready();
    let plain: Transaction<u8> = display.write_char('A');
    assert_eq!(plain.steps(), &vec![write(LCD, 0x40, 0x41), delay(5)]);
    let wide: Transaction<u8> = display.write_char('\u{20AC}');
    assert_eq!(wide.steps(), &vec![write(LCD, 0x40, 0xAC), delay(5)]);
}

#[test]
fn write_string_does_not_wrap() {
    let display = ready();
    let empty: Transaction<u8> = display.write_string("");
    assert!(empty.steps().is_empty());
    assert!(empty.is_settled());
    let short: Transaction<u8> = display.write_string("Hi");
    assert_eq!(
        short.steps(),
        &vec![write(LCD, 0x40, b'H'), delay(5), write(LCD, 0x40, b'i'), delay(5)]
    );
    let text = "twenty characters !!";
    let long: Transaction<u8> = display.write_string(text);
    assert_eq!(long.steps(), &chars_of(text));
    assert_eq!(long.steps().len(), 40);
}

#[test]
fn write_line_one_and_two_reposition_first() {
    let display = ready();
    let one: Transaction<u8> = display.write_line_one("ab");
    let mut expected = vec![write(LCD, 0x80, 0x80)];
    expected.extend(chars_of("ab"));
    assert_eq!(one.steps(), &expected);
    let text = "a line that is too long";
    let two: Transaction<u8> = display.write_line_two(text);
    let mut expected = vec![write(LCD, 0x80, 0xC0)];
    expected.extend(chars_of(text));
    assert_eq!(two.steps(), &expected);
}

#[test]
fn write_text_short_stays_on_first_line() {
    let display = ready();
    for text in ["", "a", "hello", "0123456789abcdef"] {
        let t: Transaction<u8> = display.write_text(text);
        let mut expected = vec![write(LCD, 0x80, 0x80)];
        expected.extend(chars_of(text));
        assert_eq!(t.steps(), &expected);
        assert!(!t.steps().contains(&write(LCD, 0x80, 0xC0)));
    }
    let hello: Transaction<u8> = display.write_text("hi");
    assert_eq!(
        hello.steps(),
        &vec![
            write(LCD, 0x80, 0x80),
            write(LCD, 0x40, 0x68),
            delay(5),
            write(LCD, 0x40, 0x69),
            delay(5)
        ]
    );
}

#[test]
fn write_text_long_wraps_once_after_sixteen() {
    let display = ready();
    for text in ["0123456789abcdefg", "0123456789abcdefghijklmnopqrstuvwxyz and on and on"] {
        let t: Transaction<u8> = display.write_text(text);
        let mut expected = vec![write(LCD, 0x80, 0x80)];
        expected.extend(chars_of(&text[..16]));
        expected.push(write(LCD, 0x80, 0xC0));
        expected.extend(chars_of(&text[16..]));
        assert_eq!(t.steps(), &expected);
        assert_eq!(t.steps()[33], write(LCD, 0x80, 0xC0));
        let commands = t
            .steps()
            .iter()
            .filter(|s| matches!(s, Step::Write { payload, .. } if payload[0] == 0x80))
            .count();
        assert_eq!(commands, 2);
    }
    assert_eq!(text_steps(LCD, "0123456789abcdefg").len(), 2 + 2 * 17);
}

#[test]
fn write_text_counts_characters_not_bytes() {
    let display = ready();
    // Sixteen characters in thirty-two bytes: no wrap.
    let sixteen = "\u{00E9}".repeat(16);
    assert_eq!(sixteen.len(), 32);
    let t: Transaction<u8> = display.write_text(&sixteen);
    assert_eq!(t.steps().len(), 1 + 32);
    assert!(!t.steps().contains(&write(LCD, 0x80, 0xC0)));
    assert_eq!(t.steps()[1], write(LCD, 0x40, 0xE9));
    // Seventeen such characters: the last one goes to the second line.
    let seventeen = "\u{00E9}".repeat(17);
    let t: Transaction<u8> = display.write_text(&seventeen);
    assert_eq!(t.steps().len(), 2 + 34);
    assert_eq!(t.steps()[33], write(LCD, 0x80, 0xC0));
    assert_eq!(t.steps()[34], write(LCD, 0x40, 0xE9));
}

#[test]
fn write_data_passes_bytes_through() {
    let display = ready();
    let raw: Transaction<u8> = display.write_data(0x27, &[1, 2, 3, 4]);
    assert_eq!(raw.steps(), &vec![Step::Write { address: 0x27, payload: vec![1, 2, 3, 4] }]);
    let none: Transaction<u8> = display.write_data(0x60, &[]);
    assert_eq!(none.steps(), &vec![Step::Write { address: 0x60, payload: vec![] }]);
}

#[test]
fn step_clone_is_equal() {
    let step = write(LCD, 0x40, 7);
    assert_eq!(step.clone(), step);
    assert_eq!(delay(50).clone(), delay(50));
}
