use kleinos::vga::{Color, ColorCode, VgaScreen, BUFFER_HEIGHT, BUFFER_WIDTH};

#[test]
fn color_code_packs_background_high_foreground_low() {
    assert_eq!(ColorCode::new(Color::LightGray, Color::Black).value(), 0x07);
    assert_eq!(ColorCode::new(Color::Yellow, Color::Blue).value(), 0x1E);
    assert_eq!(ColorCode::new(Color::White, Color::White).value(), 0xFF);
    assert_eq!(ColorCode::new(Color::Black, Color::Black).value(), 0x00);
}

#[test]
fn fresh_screen_is_blank_in_default_attribute() {
    let screen = VgaScreen::new();
    let attr = ColorCode::new(Color::LightGray, Color::Black);
    for row in [0usize, 1, 12, 24] {
        for col in [0usize, 1, 40, 79] {
            let cell = screen.read(row, col);
            assert_eq!(cell.character, b' ');
            assert_eq!(cell.color, attr);
        }
    }
}

#[test]
fn display_round_trip() {
    let mut screen = VgaScreen::new();
    let text = "Hello, Rustaceans!";
    assert_eq!(text.len(), 18);
    screen.write_str(text);
    let attr = ColorCode::new(Color::LightGray, Color::Black);
    for (i, b) in text.bytes().enumerate() {
        let cell = screen.read(0, i);
        assert_eq!(cell.character, b);
        assert_eq!(cell.color, attr);
    }
    // The remaining 62 columns stay space-filled in the same attribute.
    for col in text.len()..BUFFER_WIDTH {
        let cell = screen.read(0, col);
        assert_eq!(cell.character, b' ');
        assert_eq!(cell.color, attr);
    }
}

#[test]
fn non_ascii_becomes_placeholder_glyph() {
    let mut screen = VgaScreen::new();
    screen.write_str("é");
    assert_eq!(screen.read(0, 0).character, 0xFE);
    screen.write_byte(b'x');
    assert_eq!(screen.read(0, 1).character, b'x');
}

#[test]
fn newline_scrolls_one_row() {
    let mut screen = VgaScreen::new();
    screen.write_str("abc\n");
    // The completed line moved up to row 1; the bottom row is blank again.
    assert_eq!(screen.read(1, 0).character, b'a');
    assert_eq!(screen.read(1, 1).character, b'b');
    assert_eq!(screen.read(1, 2).character, b'c');
    assert_eq!(screen.read(1, 3).character, b' ');
    assert_eq!(screen.read(0, 0).character, b' ');
}

#[test]
fn full_line_wraps_before_the_next_byte() {
    let mut screen = VgaScreen::new();
    for _ in 0..BUFFER_WIDTH {
        screen.write_byte(b'x');
    }
    assert_eq!(screen.read(0, 79).character, b'x');
    // The 81st byte forces a scroll first, then lands at column 0.
    screen.write_byte(b'y');
    assert_eq!(screen.read(1, 79).character, b'x');
    assert_eq!(screen.read(0, 0).character, b'y');
    assert_eq!(screen.read(0, 1).character, b' ');
}

#[test]
fn newline_after_a_full_line_scrolls_twice() {
    let mut screen = VgaScreen::new();
    for _ in 0..BUFFER_WIDTH {
        screen.write_byte(b'x');
    }
    // The newline first wraps the full line, then scrolls itself: the
    // text ends up two rows up, with a blank line under it.
    screen.write_byte(b'\n');
    assert_eq!(screen.read(2, 0).character, b'x');
    assert_eq!(screen.read(2, 79).character, b'x');
    assert_eq!(screen.read(1, 0).character, b' ');
    assert_eq!(screen.read(0, 0).character, b' ');
}

#[test]
fn display_scroll_keeps_newest_25_of_26_lines() {
    let mut screen = VgaScreen::new();
    // 26 distinguishable lines; the first 25 are newline-terminated, so
    // the 26th sits on the bottom row when writing ends.
    for i in 0..26u8 {
        let line = format!("line{:02}", i);
        screen.write_str(&line);
        if i != 25 {
            screen.write_str("\n");
        }
    }
    // Newest line at logical row 0, each older line one row higher.
    for row in 0..BUFFER_HEIGHT {
        let expected = format!("line{:02}", 25 - row);
        for (i, b) in expected.bytes().enumerate() {
            assert_eq!(screen.read(row, i).character, b);
        }
        for col in expected.len()..BUFFER_WIDTH {
            assert_eq!(screen.read(row, col).character, b' ');
        }
    }
    // The oldest line was discarded: nothing shows "line00" any more; the
    // deepest visible row holds "line01".
    assert_eq!(screen.read(BUFFER_HEIGHT - 1, 5).character, b'1');
}

#[test]
fn clear_line_blanks_from_cursor_in_current_attribute() {
    let mut screen = VgaScreen::new();
    screen.write_str("abcdef");
    screen.clear_line();
    // Cells left of the cursor keep their content; the rest is blank.
    assert_eq!(screen.read(0, 0).character, b'a');
    assert_eq!(screen.read(0, 5).character, b'f');
    for col in 6..BUFFER_WIDTH {
        assert_eq!(screen.read(0, col).character, b' ');
    }
}

#[test]
fn explicit_write_places_one_cell() {
    let mut screen = VgaScreen::new();
    let attr = ColorCode::new(Color::Red, Color::Black);
    screen.write(b'*', attr, 10, 20);
    let cell = screen.read(10, 20);
    assert_eq!(cell.character, b'*');
    assert_eq!(cell.color, attr);
    // Neighbours untouched.
    assert_eq!(screen.read(10, 19).character, b' ');
    assert_eq!(screen.read(11, 20).character, b' ');
}
