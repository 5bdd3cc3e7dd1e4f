use rustos::console;
use rustos::terminal::{hex, itoc, wtoc, Terminal};
use rustos::text_screen;
use rustos::vga::{color_from_u8, color_to_u8, get_vgaentry, make_color, make_vgaentry, Color, VGA, VGA_START};

fn row_text(t: &mut Terminal, y: usize, n: usize) -> Vec<u8> {
    (0..n).map(|x| t.get((x, y)).unwrap().0).collect()
}

#[test]
fn colors_encode_foreground_low_background_high() {
    assert_eq!(make_color(Color::White, Color::Black), 0x0f);
    assert_eq!(make_color(Color::White, Color::Blue), 0x1f);
    assert_eq!(make_color(Color::Black, Color::Yellow), 0xe0);
    assert_eq!(color_to_u8(Color::LightCyan), 11);
    assert_eq!(color_from_u8(13), Color::LightPink);
}

#[test]
fn vga_entry_packs_character_and_attribute() {
    assert_eq!(make_vgaentry(b'A', 0x1f), 0x1f41);
    assert_eq!(get_vgaentry(0x1f41), (b'A', Color::White, Color::Blue));
    assert_eq!(get_vgaentry(0x0000), (0, Color::Black, Color::Black));
    assert_eq!(get_vgaentry(0xe42a), (b'*', Color::Red, Color::Yellow));
}

#[test]
fn vga_put_then_get_reads_back() {
    let mut v = VGA::new();
    assert_eq!(v.x_max(), 80);
    assert_eq!(v.y_max(), 24);
    assert_eq!(v.get((3, 2)), Some((0, Color::Black, Color::Black)));
    assert!(v.put((3, 2), b'q', Color::Green, Color::Brown));
    assert_eq!(v.get((3, 2)), Some((b'q', Color::Green, Color::Brown)));
    assert_eq!(v.get((2, 2)), Some((0, Color::Black, Color::Black)));
}

#[test]
fn vga_refuses_points_off_the_screen() {
    let mut v = VGA::new();
    assert!(!v.put((80, 0), b'x', Color::White, Color::Black));
    assert!(!v.put((0, 24), b'x', Color::White, Color::Black));
    assert_eq!(v.get((80, 0)), None);
    assert_eq!(v.get((0, 24)), None);
    assert!(v.put((79, 23), b'x', Color::White, Color::Black));
}

#[test]
fn hex_digits_and_their_fallback() {
    assert_eq!(hex(0), b'0');
    assert_eq!(hex(9), b'9');
    assert_eq!(hex(10), b'A');
    assert_eq!(hex(15), b'F');
    assert_eq!(hex(16), b'z');
    assert_eq!(hex(200), b'z');
    assert_eq!(itoc(0x3c), (b'3', b'C'));
    assert_eq!(itoc(0xff), (b'F', b'F'));
}

#[test]
fn wtoc_gives_digits_most_significant_first() {
    assert_eq!(wtoc(0x12345678), (b'1', b'2', b'3', b'4', b'5', b'6', b'7', b'8'));
    assert_eq!(wtoc(0xDEADBEEF), (b'D', b'E', b'A', b'D', b'B', b'E', b'E', b'F'));
    assert_eq!(wtoc(0), (b'0', b'0', b'0', b'0', b'0', b'0', b'0', b'0'));
}

#[test]
fn terminal_starts_blank_at_the_top_left() {
    let mut t = Terminal::init();
    assert_eq!(t.cursor(), (0, 0));
    assert_eq!(t.get((0, 0)), Some((0, Color::Black, Color::Black)));
    assert_eq!(t.get((80, 0)), None);
}

#[test]
fn terminal_put_char_writes_white_on_black_and_advances() {
    let mut t = Terminal::init();
    t.put_char(b'A');
    assert_eq!(t.get((0, 0)), Some((b'A', Color::White, Color::Black)));
    assert_eq!(t.cursor(), (1, 0));
    t.put_char(b'B');
    assert_eq!(t.get((1, 0)), Some((b'B', Color::White, Color::Black)));
    assert_eq!(t.cursor(), (2, 0));
}

#[test]
fn terminal_newline_moves_to_column_one_of_next_row() {
    let mut t = Terminal::init();
    t.print("ab\ncd");
    assert_eq!(row_text(&mut t, 0, 2), b"ab".to_vec());
    // after a newline the cursor also steps one column on
    assert_eq!(t.get((0, 1)), Some((0, Color::Black, Color::Black)));
    assert_eq!(t.get((1, 1)), Some((b'c', Color::White, Color::Black)));
    assert_eq!(t.get((2, 1)), Some((b'd', Color::White, Color::Black)));
    assert_eq!(t.cursor(), (3, 1));
}

#[test]
fn terminal_wraps_at_the_end_of_a_row() {
    let mut t = Terminal::init();
    for _ in 0..80 {
        t.put_char(b'x');
    }
    assert_eq!(t.cursor(), (0, 1));
    t.put_char(b'y');
    assert_eq!(t.get((0, 1)), Some((b'y', Color::White, Color::Black)));
    assert_eq!(t.get((79, 0)), Some((b'x', Color::White, Color::Black)));
}

#[test]
fn terminal_scrolls_and_fills_last_row_with_a() {
    let mut t = Terminal::init();
    t.put_char(b'T');
    for _ in 0..(80 * 24 - 1) {
        t.put_char(b'.');
    }
    // the last cell was written, the screen scrolled once
    assert_eq!(t.cursor(), (0, 23));
    assert_eq!(t.get((0, 0)), Some((b'.', Color::White, Color::Black)));
    assert_eq!(t.get((79, 22)), Some((b'.', Color::White, Color::Black)));
    for x in 0..80 {
        assert_eq!(t.get((x, 23)), Some((b'a', Color::Black, Color::Black)));
    }
}

#[test]
fn terminal_clear_screen_blanks_every_cell_and_keeps_cursor() {
    let mut t = Terminal::init();
    t.print("hello");
    t.clear_screen();
    assert_eq!(t.cursor(), (5, 0));
    for y in 0..24 {
        for x in 0..80 {
            assert_eq!(t.get((x, y)), Some((0, Color::Black, Color::Black)));
        }
    }
}

#[test]
fn terminal_put_hex_and_put_int() {
    let mut t = Terminal::init();
    t.put_hex(0xab);
    assert_eq!(row_text(&mut t, 0, 4), b"0xAB".to_vec());
    let mut u = Terminal::init();
    u.put_int(0x00c0ffee);
    assert_eq!(row_text(&mut u, 0, 10), b"0x00C0FFEE".to_vec());
    assert_eq!(u.cursor(), (10, 0));
}

#[test]
fn terminal_println_ends_the_line() {
    let mut t = Terminal::init();
    t.println("ok");
    assert_eq!(row_text(&mut t, 0, 2), b"ok".to_vec());
    assert_eq!(t.cursor(), (1, 1));
}

#[test]
fn terminal_print_cuts_characters_to_bytes() {
    let mut t = Terminal::init();
    t.print("é");
    assert_eq!(t.get((0, 0)), Some((0xe9, Color::White, Color::Black)));
    t.write(&[1, 2]);
    assert_eq!(t.get((2, 0)), Some((2, Color::White, Color::Black)));
}

#[test]
fn terminal_new_keeps_the_screen_given() {
    let mut v = VGA::new();
    v.put((5, 5), b'k', Color::Cyan, Color::Red);
    let mut t = Terminal::new(v);
    assert_eq!(t.cursor(), (0, 0));
    assert_eq!(t.get((5, 5)), Some((b'k', Color::Cyan, Color::Red)));
}

#[test]
fn console_newline_goes_to_column_zero() {
    let mut c = console::Terminal::init_global(VGA::new());
    assert_eq!(c.write(b"ab\ncd"), 5);
    assert_eq!(c.get((0, 1)), Some((b'c', Color::White, Color::Black)));
    assert_eq!(c.get((1, 1)), Some((b'd', Color::White, Color::Black)));
    assert_eq!(c.cursor(), (2, 1));
}

#[test]
fn console_scroll_blanks_the_last_row() {
    let mut c = console::Terminal::init_global(VGA::new());
    c.put_char(b'T');
    for _ in 0..23 {
        c.put_char(b'\n');
    }
    assert_eq!(c.cursor(), (0, 23));
    c.put_char(b'L');
    c.put_char(b'\n');
    // one scroll: the first row (with T) is gone, the L row moved up
    assert_eq!(c.cursor(), (0, 23));
    assert_eq!(c.get((0, 0)), Some((0, Color::Black, Color::Black)));
    assert_eq!(c.get((0, 22)), Some((b'L', Color::White, Color::Black)));
    assert_eq!(c.get((0, 23)), Some((0, Color::Black, Color::Black)));
}

#[test]
fn console_clear_screen() {
    let mut c = console::Terminal::init_global(VGA::new());
    c.write(b"xyz");
    c.clear_screen();
    assert_eq!(c.get((1, 0)), Some((0, Color::Black, Color::Black)));
    assert_eq!(c.cursor(), (3, 0));
}

#[test]
fn text_screen_moves_two_columns_before_storing() {
    let mut t = text_screen::Terminal::new(0xb8000, 80, 25);
    assert_eq!(t.put_char(b'A'), Some((0xb8000 + 2, 0x0f41)));
    assert_eq!(t.put_char(b'B'), Some((0xb8000 + 4, 0x0f42)));
    assert_eq!(t.put_char(b'\n'), None);
    assert_eq!(t.put_char(b'C'), Some((0xb8000 + 80 + 2, 0x0f43)));
}

#[test]
fn text_screen_last_row_and_last_cell() {
    let mut t = text_screen::Terminal::new(0, 4, 2);
    assert_eq!(t.put_char(b'\n'), None);
    // on the last row: go to the start of the row below
    assert_eq!(t.put_char(b'a'), Some((2 * 4, 0x0f61)));
    let mut u = text_screen::Terminal::new(0, 1, 1);
    // the only cell is the last one: back to the top left
    assert_eq!(u.put_char(b'z'), Some((0, 0x0f7a)));
}

#[test]
fn text_screen_hex_output_orders_bytes_low_first() {
    let mut t = text_screen::Terminal::new(0, 80, 25);
    let stores = t.put_int(0x12345678);
    let chars: Vec<u8> = stores.iter().map(|&(_, e)| (e & 0xff) as u8).collect();
    assert_eq!(chars, b"0x78563412".to_vec());
    assert_eq!(text_screen::wtoc(0x12345678), (b'7', b'8', b'5', b'6', b'3', b'4', b'1', b'2'));
    let mut u = text_screen::Terminal::new(0, 80, 25);
    let hs = u.put_hex(0x5f);
    let hc: Vec<u8> = hs.iter().map(|&(_, e)| (e & 0xff) as u8).collect();
    assert_eq!(hc, b"0x5F".to_vec());
    assert_eq!(hs[0].0, 2);
    assert_eq!(hs[3].0, 8);
}

#[test]
fn text_screen_print_and_println_store_each_byte() {
    let mut t = text_screen::Terminal::new(100, 80, 25);
    let s = t.print("hi");
    assert_eq!(s, vec![(102, 0x0f68), (104, 0x0f69)]);
    let l = t.println("!");
    assert_eq!(l, vec![(106, 0x0f21)]);
    assert_eq!(t.put_char(b'x'), Some((100 + 80 + 2, 0x0f78)));
}

#[test]
fn text_screen_clear_screen_covers_every_cell() {
    let stores = text_screen::clear_screen(Color::Blue);
    assert_eq!(stores.len(), 2000);
    assert_eq!(stores[0], (0xb8000, 0x1000));
    assert_eq!(stores[1999], (0xb8000 + 2 * 1999, 0x1000));
    assert!(stores.iter().all(|&(_, v)| v == 0x1000));
}

#[test]
fn put_int_digits_read_back_as_the_word() {
    for &w in &[0u32, 1, 0xabcdef01, 0xffffffff, 0x80000000] {
        let (a, b, c, d, e, f, g, h) = wtoc(w);
        let value = [a, b, c, d, e, f, g, h].iter().fold(0u64, |acc, &ch| {
            let v = if ch <= b'9' { ch - b'0' } else { ch - b'A' + 10 };
            acc * 16 + v as u64
        });
        assert_eq!(value, w as u64);
    }
}

#[test]
fn screens_lie_at_the_text_buffer() {
    let v = VGA::new();
    assert_eq!(v.mapped(), 0xb8000);
    assert_eq!(v.mapped(), VGA_START);
    assert_eq!(v.cell_address((0, 0)), Some(0xb8000));
    assert_eq!(v.cell_address((1, 0)), Some(0xb8002));
    assert_eq!(v.cell_address((0, 1)), Some(0xb8000 + 160));
    assert_eq!(v.cell_address((79, 23)), Some(0xb8000 + 2 * (80 * 23 + 79)));
    assert_eq!(v.cell_address((80, 0)), None);
    let t = Terminal::init();
    assert_eq!(t.screen_address(), 0xb8000);
    assert_eq!(t.cell_address((2, 1)), Some(0xb8000 + 2 * 82));
    let c = console::Terminal::init_global(VGA::new());
    assert_eq!(c.screen_address(), 0xb8000);
    assert_eq!(c.cell_address((0, 24)), None);
}

#[test]
fn log_lines_name_level_file_and_line() {
    assert_eq!(rustos::log::format_decimal(0), b"0".to_vec());
    assert_eq!(rustos::log::format_decimal(1907), b"1907".to_vec());
    assert_eq!(
        rustos::log::log_bytes("WARN", "a.rs", 12, b"careful"),
        b"[WARN:a.rs 12]: careful\n".to_vec()
    );
    let mut c = console::Terminal::init_global(VGA::new());
    rustos::log::debug(&mut c, "src/x.rs", 7, b"hi");
    let text: Vec<u8> = (0..22).map(|x| c.get((x, 0)).unwrap().0).collect();
    assert_eq!(text, b"[DEBUG:src/x.rs 7]: hi".to_vec());
    assert_eq!(c.cursor(), (0, 1));
}
