use jax_os::vga_buffer::cell::BLANK_CHAR;
use jax_os::vga_buffer::{Color, ColorCode, ScreenChar};

const PALETTE: [(Color, u8); 15] = [
    (Color::Black, 0),
    (Color::Blue, 1),
    (Color::Green, 2),
    (Color::Cyan, 3),
    (Color::Red, 4),
    (Color::Magenta, 6),
    (Color::LightGray, 7),
    (Color::DarkGray, 8),
    (Color::LightBlue, 9),
    (Color::LightGreen, 10),
    (Color::LightCyan, 11),
    (Color::LightRed, 12),
    (Color::Pink, 13),
    (Color::Yellow, 14),
    (Color::White, 15),
];

#[test]
fn color_codes_follow_the_palette() {
    for (color, code) in PALETTE {
        assert_eq!(color.code(), code, "{:?}", color);
    }
}

#[test]
fn color_codes_fit_in_four_bits_and_skip_five() {
    for (color, _) in PALETTE {
        assert!(color.code() < 16);
        assert_ne!(color.code(), 5);
    }
}

#[test]
fn color_codes_are_distinct() {
    for (i, (a, _)) in PALETTE.iter().enumerate() {
        for (j, (b, _)) in PALETTE.iter().enumerate() {
            assert_eq!(a.code() == b.code(), i == j);
        }
    }
}

#[test]
fn color_code_of_white_on_black() {
    assert_eq!(ColorCode::new(Color::White, Color::Black), ColorCode(0x0f));
}

#[test]
fn color_code_puts_background_high_and_foreground_low() {
    assert_eq!(ColorCode::new(Color::Blue, Color::LightRed).0, 0xc1);
    assert_eq!(ColorCode::new(Color::LightRed, Color::Blue).0, 0x1c);
    assert_eq!(ColorCode::new(Color::Yellow, Color::Black).0, 0x0e);
    assert_eq!(ColorCode::new(Color::Magenta, Color::Magenta).0, 0x66);
    assert_eq!(ColorCode::new(Color::White, Color::White).0, 0xff);
}

#[test]
fn color_code_holds_both_codes_for_every_pair() {
    for (foreground, low) in PALETTE {
        for (background, high) in PALETTE {
            let color_code = ColorCode::new(foreground, background);
            assert_eq!(color_code.0 & 0x0f, low);
            assert_eq!(color_code.0 >> 4, high);
        }
    }
}

#[test]
fn screen_char_encode_pairs_character_and_attribute() {
    let cell = ScreenChar::encode(b'A', ColorCode(0x1e));
    assert_eq!(cell.ascii_char, b'A');
    assert_eq!(cell.color_code, ColorCode(0x1e));
}

#[test]
fn screen_char_blank_is_a_space() {
    let cell = ScreenChar::blank(ColorCode(0x0f));
    assert_eq!(BLANK_CHAR, b' ');
    assert_eq!(cell, ScreenChar { ascii_char: b' ', color_code: ColorCode(0x0f) });
}

#[test]
fn screen_char_bytes_are_character_then_attribute() {
    let cell = ScreenChar { ascii_char: b'x', color_code: ColorCode(0x4a) };
    assert_eq!(cell.to_bytes(), [b'x', 0x4a]);
    assert_eq!(ScreenChar::from_bytes([b'x', 0x4a]), cell);
}

#[test]
fn screen_char_bytes_round_trip() {
    for character in [0u8, 0x20, 0x41, 0x7e, 0xfe, 0xff] {
        for attribute in [0u8, 0x0f, 0xc1, 0xff] {
            let cell = ScreenChar { ascii_char: character, color_code: ColorCode(attribute) };
            assert_eq!(ScreenChar::from_bytes(cell.to_bytes()), cell);
        }
    }
}
