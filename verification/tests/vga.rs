use rustos::vga::byte_for;
use rustos::vga::init;
use rustos::vga::Attribute;
use rustos::vga::Color;
use rustos::vga::VgaCharacter;
use rustos::vga::Writer;
use rustos::vga::BUFFER_HEIGHT;
use rustos::vga::BUFFER_WIDTH;
use rustos::vga::CCSID_437;

fn blank() -> VgaCharacter {
    VgaCharacter { character: b' ', attribute: Attribute(0x0f) }
}

fn white(character: u8) -> VgaCharacter {
    VgaCharacter { character, attribute: Attribute(0x0f) }
}

fn row_text(writer: &Writer, row: usize, length: usize) -> Vec<u8> {
    (0..length).map(|col| writer.cell(row, col).character).collect()
}

#[test]
fn colours_are_numbered_from_black_to_white() {
    let colours = [
        Color::Black,
        Color::Blue,
        Color::Green,
        Color::Cyan,
        Color::Red,
        Color::Magenta,
        Color::Brown,
        Color::LightGray,
        Color::DarkGray,
        Color::LightBlue,
        Color::LightGreen,
        Color::LightCyan,
        Color::LightRed,
        Color::LightMagenta,
        Color::Yellow,
        Color::White,
    ];
    let mut index: usize = 0;
    while index < 16 {
        assert_eq!(colours[index].as_u8() as usize, index);
        index += 1;
    }
}

#[test]
fn attribute_holds_background_above_foreground() {
    assert_eq!(Attribute::new(Color::LightCyan, Color::Black), Attribute(0x0b));
    assert_eq!(Attribute::new(Color::White, Color::Blue), Attribute(0x1f));
    assert_eq!(Attribute::new(Color::Black, Color::White), Attribute(0xf0));
    assert_eq!(Attribute::new(Color::Yellow, Color::Red), Attribute(0x4e));
}

#[test]
fn default_attribute_is_white_on_black() {
    assert_eq!(Attribute::default(), Attribute(0x0f));
    assert_eq!(Attribute::default(), Attribute::new(Color::White, Color::Black));
}

#[test]
fn screen_dimensions() {
    assert_eq!(BUFFER_HEIGHT, 25);
    assert_eq!(BUFFER_WIDTH, 80);
    assert_eq!(CCSID_437.chars().count(), 256);
}

#[test]
fn new_writer_has_an_empty_screen() {
    let writer = Writer::new();
    assert_eq!(writer.position(), (0, 0));
    for row in 0..BUFFER_HEIGHT {
        for col in 0..BUFFER_WIDTH {
            assert_eq!(writer.cell(row, col), blank());
        }
    }
}

#[test]
fn text_is_written_from_the_cursor_on() {
    let mut writer = Writer::new();
    writer.write_string("Hi!");
    assert_eq!(writer.cell(0, 0), white(b'H'));
    assert_eq!(writer.cell(0, 1), white(b'i'));
    assert_eq!(writer.cell(0, 2), white(b'!'));
    assert_eq!(writer.cell(0, 3), blank());
    assert_eq!(writer.position(), (0, 3));
}

#[test]
fn line_feed_and_carriage_return_start_a_new_row() {
    let mut writer = Writer::new();
    writer.write_string("a\nb\rc");
    assert_eq!(writer.cell(0, 0), white(b'a'));
    assert_eq!(writer.cell(1, 0), white(b'b'));
    assert_eq!(writer.cell(2, 0), white(b'c'));
    assert_eq!(writer.position(), (2, 1));
}

#[test]
fn tabulator_writes_four_spaces() {
    let mut writer = Writer::new();
    writer.set_attribute(Color::Black, Color::White);
    writer.write_string("\tx");
    for col in 0..4 {
        assert_eq!(writer.cell(0, col), VgaCharacter { character: b' ', attribute: Attribute(0xf0) });
    }
    assert_eq!(writer.cell(0, 4), VgaCharacter { character: b'x', attribute: Attribute(0xf0) });
    assert_eq!(writer.position(), (0, 5));
}

#[test]
fn full_row_wraps_with_the_next_byte() {
    let mut writer = Writer::new();
    for _ in 0..BUFFER_WIDTH {
        writer.write_byte(b'-');
    }
    assert_eq!(writer.position(), (0, 80));
    writer.write_byte(b'+');
    assert_eq!(writer.position(), (1, 1));
    assert_eq!(writer.cell(0, 79), white(b'-'));
    assert_eq!(writer.cell(1, 0), white(b'+'));
}

#[test]
fn new_line_in_the_last_row_moves_the_rows_up() {
    let mut writer = Writer::new();
    for row in 0..BUFFER_HEIGHT {
        writer.write_byte(b'A' + row as u8);
        if row + 1 < BUFFER_HEIGHT {
            writer.new_line();
        }
    }
    assert_eq!(writer.position(), (24, 1));
    assert_eq!(writer.cell(0, 0), white(b'A'));
    assert_eq!(writer.cell(24, 0), white(b'Y'));
    writer.new_line();
    assert_eq!(writer.position(), (24, 0));
    for row in 0..BUFFER_HEIGHT - 1 {
        assert_eq!(writer.cell(row, 0), white(b'B' + row as u8));
        assert_eq!(writer.cell(row, 1), blank());
    }
    for col in 0..BUFFER_WIDTH {
        assert_eq!(writer.cell(24, col), blank());
    }
}

#[test]
fn emptied_row_is_white_on_black_whatever_the_attribute() {
    let mut writer = Writer::new();
    writer.set_attribute(Color::Red, Color::Blue);
    for _ in 0..BUFFER_HEIGHT {
        writer.write_string("x\n");
    }
    assert_eq!(writer.position(), (24, 0));
    assert_eq!(writer.cell(23, 0), VgaCharacter { character: b'x', attribute: Attribute(0x14) });
    assert_eq!(writer.cell(24, 0), blank());
}

#[test]
fn attribute_applies_until_it_is_reset() {
    let mut writer = Writer::new();
    writer.set_attribute(Color::LightCyan, Color::Black);
    writer.write_string("a");
    writer.reset_attribute();
    writer.write_string("b");
    assert_eq!(writer.cell(0, 0), VgaCharacter { character: b'a', attribute: Attribute(0x0b) });
    assert_eq!(writer.cell(0, 1), VgaCharacter { character: b'b', attribute: Attribute(0x0f) });
}

#[test]
fn characters_of_the_code_page_get_their_code_point() {
    assert_eq!(byte_for('☺'), 0x01);
    assert_eq!(byte_for('é'), 0x82);
    assert_eq!(byte_for('│'), 0xb3);
    assert_eq!(byte_for('─'), 0xc4);
    assert_eq!(byte_for('┌'), 0xda);
    assert_eq!(byte_for('■'), 0xfe);
    assert_eq!(byte_for('⌂'), 0x7f);
}

#[test]
fn ascii_characters_keep_their_code() {
    assert_eq!(byte_for('A'), 0x41);
    assert_eq!(byte_for('?'), 0x3f);
    assert_eq!(byte_for(' '), 0x20);
    assert_eq!(byte_for('\u{0}'), 0);
    assert_eq!(byte_for('\u{7f}'), 0x7f);
}

#[test]
fn unknown_characters_become_question_marks() {
    assert_eq!(byte_for('€'), 0x3f);
    assert_eq!(byte_for('中'), 0x3f);
    assert_eq!(byte_for('\u{80}'), 0x3f);
}

#[test]
fn frame_characters_are_written_as_code_points() {
    let mut writer = Writer::new();
    writer.write_string("┌─┐€");
    assert_eq!(row_text(&writer, 0, 4), vec![0xda, 0xc4, 0xbf, 0x3f]);
}

#[test]
fn clear_empties_one_cell() {
    let mut writer = Writer::new();
    writer.write_string("abc");
    writer.clear(0, 1);
    assert_eq!(row_text(&writer, 0, 3), vec![b'a', b' ', b'c']);
    assert_eq!(writer.position(), (0, 3));
}

#[test]
fn init_empties_the_screen_and_keeps_the_cursor() {
    let mut writer = Writer::new();
    writer.set_attribute(Color::Green, Color::Brown);
    writer.write_string("one\ntwo\nthree");
    init(&mut writer);
    for row in 0..BUFFER_HEIGHT {
        for col in 0..BUFFER_WIDTH {
            assert_eq!(writer.cell(row, col), blank());
        }
    }
    assert_eq!(writer.position(), (2, 5));
    writer.write_string("!");
    assert_eq!(writer.cell(2, 5), VgaCharacter { character: b'!', attribute: Attribute(0x62) });
}

#[test]
fn cursor_words_at_the_start_of_the_screen() {
    let writer = Writer::new();
    assert_eq!(writer.update_cursor(), (0x000f, 0x000e));
}

#[test]
fn cursor_words_split_the_place_into_two_bytes() {
    let mut writer = Writer::new();
    writer.new_line();
    assert_eq!(writer.update_cursor(), (0x500f, 0x000e));
    for _ in 0..23 {
        writer.new_line();
    }
    for _ in 0..79 {
        writer.write_byte(b'.');
    }
    assert_eq!(writer.position(), (24, 79));
    assert_eq!(writer.update_cursor(), (0xcf0f, 0x070e));
    writer.write_byte(b'.');
    assert_eq!(writer.update_cursor(), (0xd00f, 0x070e));
}
