use rustyos::vga_buffer::{
    Color, ColorCode, ScreenCharacter, Writer, BUFFER_HEIGHT, BUFFER_WIDTH, UNPRINTABLE,
};

fn green_writer() -> Writer {
    Writer::new(ColorCode::new(Color::Green, Color::Black))
}

fn blank() -> ScreenCharacter {
    ScreenCharacter { ascii_ch: b' ', color_code: ColorCode::new(Color::Green, Color::Black) }
}

#[test]
fn new_writer_has_an_empty_screen() {
    let writer = green_writer();
    assert_eq!(writer.column(), 0);
    for row in 0..BUFFER_HEIGHT {
        for col in 0..BUFFER_WIDTH {
            assert_eq!(writer.cell(row, col), blank());
        }
    }
}

#[test]
fn write_byte_fills_the_bottom_line() {
    let mut writer = green_writer();
    writer.write_byte(b'W');
    writer.write_byte(b'e');
    assert_eq!(writer.column(), 2);
    assert_eq!(writer.cell(BUFFER_HEIGHT - 1, 0).ascii_ch, b'W');
    assert_eq!(writer.cell(BUFFER_HEIGHT - 1, 0).color_code, ColorCode(0x02));
    assert_eq!(writer.cell(BUFFER_HEIGHT - 1, 1).ascii_ch, b'e');
    assert_eq!(writer.cell(BUFFER_HEIGHT - 1, 2), blank());
    assert_eq!(writer.cell(BUFFER_HEIGHT - 2, 0), blank());
}

#[test]
fn line_feed_scrolls() {
    let mut writer = green_writer();
    writer.write_string("ab\ncd");
    assert_eq!(writer.column(), 2);
    assert_eq!(writer.cell(BUFFER_HEIGHT - 2, 0).ascii_ch, b'a');
    assert_eq!(writer.cell(BUFFER_HEIGHT - 2, 1).ascii_ch, b'b');
    assert_eq!(writer.cell(BUFFER_HEIGHT - 2, 2), blank());
    assert_eq!(writer.cell(BUFFER_HEIGHT - 1, 0).ascii_ch, b'c');
    assert_eq!(writer.cell(BUFFER_HEIGHT - 1, 1).ascii_ch, b'd');
}

#[test]
fn full_line_wraps_before_the_next_byte() {
    let mut writer = green_writer();
    for _ in 0..BUFFER_WIDTH {
        writer.write_byte(b'x');
    }
    assert_eq!(writer.column(), BUFFER_WIDTH);
    assert_eq!(writer.cell(BUFFER_HEIGHT - 1, BUFFER_WIDTH - 1).ascii_ch, b'x');
    writer.write_byte(b'y');
    assert_eq!(writer.column(), 1);
    assert_eq!(writer.cell(BUFFER_HEIGHT - 1, 0).ascii_ch, b'y');
    assert_eq!(writer.cell(BUFFER_HEIGHT - 1, 1), blank());
    assert_eq!(writer.cell(BUFFER_HEIGHT - 2, 0).ascii_ch, b'x');
    assert_eq!(writer.cell(BUFFER_HEIGHT - 2, BUFFER_WIDTH - 1).ascii_ch, b'x');
}

#[test]
fn top_line_is_lost_after_a_screen_of_lines() {
    let mut writer = green_writer();
    writer.write_string("first");
    for _ in 0..(BUFFER_HEIGHT - 1) {
        writer.new_line();
    }
    assert_eq!(writer.cell(0, 0).ascii_ch, b'f');
    assert_eq!(writer.cell(0, 4).ascii_ch, b't');
    writer.new_line();
    for col in 0..BUFFER_WIDTH {
        assert_eq!(writer.cell(0, col), blank());
    }
}

#[test]
fn clear_row_empties_one_line() {
    let mut writer = green_writer();
    writer.write_string("up\ndown");
    writer.clear_row(BUFFER_HEIGHT - 2);
    assert_eq!(writer.cell(BUFFER_HEIGHT - 2, 0), blank());
    assert_eq!(writer.cell(BUFFER_HEIGHT - 2, 1), blank());
    assert_eq!(writer.cell(BUFFER_HEIGHT - 1, 0).ascii_ch, b'd');
    assert_eq!(writer.column(), 4);
}

#[test]
fn unprintable_bytes_are_shown_as_a_mark() {
    let mut writer = green_writer();
    writer.write_string("a\tb\u{e9}~");
    assert_eq!(writer.cell(BUFFER_HEIGHT - 1, 0).ascii_ch, b'a');
    assert_eq!(writer.cell(BUFFER_HEIGHT - 1, 1).ascii_ch, UNPRINTABLE);
    assert_eq!(writer.cell(BUFFER_HEIGHT - 1, 2).ascii_ch, b'b');
    assert_eq!(writer.cell(BUFFER_HEIGHT - 1, 3).ascii_ch, 0xfe);
    assert_eq!(writer.cell(BUFFER_HEIGHT - 1, 4).ascii_ch, 0xfe);
    assert_eq!(writer.cell(BUFFER_HEIGHT - 1, 5).ascii_ch, b'~');
    assert_eq!(writer.column(), 6);
}

#[test]
fn test_println_output() {
    let s = "this is how legends are made";
    let mut writer = green_writer();
    writer.write_string(s);
    writer.write_string("\n");
    for (i, c) in s.chars().enumerate() {
        let screen_char = writer.cell(BUFFER_HEIGHT - 2, i);
        assert_eq!(char::from(screen_char.ascii_ch), c);
    }
}
