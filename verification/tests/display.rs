use os::vga_buffer::{
    Color, ColorCode, ScreenChar, Writer, BUFFER_HEIGHT, BUFFER_WIDTH, UNPRINTABLE_BYTE,
};

fn cyan_on_black() -> ColorCode {
    ColorCode::new(Color::Cyan, Color::Black)
}

#[test]
fn color_code_packs_nibbles() {
    assert_eq!(cyan_on_black().0, 0x03);
    assert_eq!(ColorCode::new(Color::Yellow, Color::Blue).0, 0x1e);
    assert_eq!(ColorCode::new(Color::White, Color::White).0, 0xff);
}

#[test]
fn writer_starts_blank() {
    let w = Writer::new(cyan_on_black());
    assert_eq!(w.column_position(), 0);
    for row in [0usize, 12, BUFFER_HEIGHT - 1] {
        for col in [0usize, 40, BUFFER_WIDTH - 1] {
            let c = w.char_at(row, col);
            assert_eq!(c.ascii_char, b' ');
            assert_eq!(c.color_code, cyan_on_black());
        }
    }
}

#[test]
fn write_byte_lands_in_last_row() {
    let mut w = Writer::new(cyan_on_black());
    w.write_byte(b'H');
    assert_eq!(w.column_position(), 1);
    assert_eq!(
        w.char_at(BUFFER_HEIGHT - 1, 0),
        ScreenChar { ascii_char: b'H', color_code: cyan_on_black() },
    );
}

#[test]
fn newline_shifts_lines_up() {
    let mut w = Writer::new(cyan_on_black());
    w.write_byte(b'A');
    w.write_byte(b'\n');
    assert_eq!(w.column_position(), 0);
    // The written character moved one row up; the last row is blank again.
    assert_eq!(w.char_at(BUFFER_HEIGHT - 2, 0).ascii_char, b'A');
    assert_eq!(w.char_at(BUFFER_HEIGHT - 1, 0).ascii_char, b' ');
}

#[test]
fn full_line_wraps() {
    let mut w = Writer::new(cyan_on_black());
    for _ in 0..BUFFER_WIDTH {
        w.write_byte(b'x');
    }
    assert_eq!(w.column_position(), BUFFER_WIDTH);
    w.write_byte(b'y');
    // The full line scrolled up and the overflowing byte starts a new line.
    assert_eq!(w.column_position(), 1);
    assert_eq!(w.char_at(BUFFER_HEIGHT - 2, 0).ascii_char, b'x');
    assert_eq!(w.char_at(BUFFER_HEIGHT - 2, BUFFER_WIDTH - 1).ascii_char, b'x');
    assert_eq!(w.char_at(BUFFER_HEIGHT - 1, 0).ascii_char, b'y');
    assert_eq!(w.char_at(BUFFER_HEIGHT - 1, 1).ascii_char, b' ');
}

#[test]
fn write_string_prints_text() {
    let mut w = Writer::new(cyan_on_black());
    w.write_string(b"Hello World!");
    let expect = b"Hello World!";
    for (i, &b) in expect.iter().enumerate() {
        assert_eq!(w.char_at(BUFFER_HEIGHT - 1, i).ascii_char, b);
    }
    assert_eq!(w.column_position(), expect.len());
}

#[test]
fn unprintable_bytes_are_substituted() {
    let mut w = Writer::new(cyan_on_black());
    w.write_string(&[0x01, 0x7f, 0xc3]);
    for col in 0..3 {
        assert_eq!(w.char_at(BUFFER_HEIGHT - 1, col).ascii_char, UNPRINTABLE_BYTE);
    }
    assert_eq!(w.column_position(), 3);
}

#[test]
fn newline_in_string_breaks_the_line() {
    let mut w = Writer::new(cyan_on_black());
    w.write_string(b"ab\ncd");
    assert_eq!(w.char_at(BUFFER_HEIGHT - 2, 0).ascii_char, b'a');
    assert_eq!(w.char_at(BUFFER_HEIGHT - 2, 1).ascii_char, b'b');
    assert_eq!(w.char_at(BUFFER_HEIGHT - 1, 0).ascii_char, b'c');
    assert_eq!(w.char_at(BUFFER_HEIGHT - 1, 1).ascii_char, b'd');
    assert_eq!(w.column_position(), 2);
}
