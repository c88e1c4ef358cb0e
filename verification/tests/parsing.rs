use rawmaster::color::{parse_hex_color, Color};
use rawmaster::dice::parse_dice_string;
use rawmaster::gamesystem::{attr_bonus, mana_at_level, npc_hp};
use rawmaster::raws::structs::Real;
use rawmaster::text::{chars_of, is_float, parse_i32};

#[test]
fn dice_with_bonus() {
    assert_eq!(parse_dice_string("2d6+1"), Some((2, 6, 1)));
}

#[test]
fn dice_without_bonus() {
    assert_eq!(parse_dice_string("1d4"), Some((1, 4, 0)));
    assert_eq!(parse_dice_string("10d20"), Some((10, 20, 0)));
}

#[test]
fn dice_with_negative_bonus() {
    assert_eq!(parse_dice_string("3d8-4"), Some((3, 8, -4)));
}

#[test]
fn dice_with_leading_zeros() {
    assert_eq!(parse_dice_string("01d06+007"), Some((1, 6, 7)));
}

#[test]
fn dice_zero_counts_parse() {
    assert_eq!(parse_dice_string("0d0"), Some((0, 0, 0)));
}

#[test]
fn dice_largest_numbers() {
    assert_eq!(
        parse_dice_string("2147483647d2147483647+2147483647"),
        Some((2147483647, 2147483647, 2147483647))
    );
    assert_eq!(parse_dice_string("1d1-2147483648"), Some((1, 1, -2147483648)));
}

#[test]
fn dice_out_of_range_is_rejected() {
    assert_eq!(parse_dice_string("2147483648d6"), None);
    assert_eq!(parse_dice_string("1d2147483648"), None);
    assert_eq!(parse_dice_string("1d6+2147483648"), None);
    assert_eq!(parse_dice_string("1d6-2147483649"), None);
    assert_eq!(parse_dice_string("99999999999999999999999d6"), None);
}

#[test]
fn dice_malformed_is_rejected() {
    for text in [
        "", "d", "d6", "2d", "2", "2x6", "2D6", " 2d6", "2d6 ", "2 d6", "2d6+", "2d6-", "2d6+1x",
        "2d6++1", "2d6+-1", "+2d6", "-2d6", "2d6+1+1", "2d6d6", "blah", "2d6*2", "２d6",
    ] {
        assert_eq!(parse_dice_string(text), None, "{:?}", text);
    }
}

#[test]
fn integers_parse_as_std_does() {
    for text in [
        "0", "7", "-7", "+7", "007", "-0", "+0", "2147483647", "-2147483648", "2147483648",
        "-2147483649", "+2147483647", "+2147483648", "", "+", "-", "--1", "+-1", "1 ", " 1", "1.5",
        "0x10", "1e3", "१२", "12a", "a12", "99999999999999999999",
    ] {
        assert_eq!(parse_i32(text), text.parse::<i32>().ok(), "{:?}", text);
    }
}

#[test]
fn integer_exact_values() {
    assert_eq!(parse_i32("42"), Some(42));
    assert_eq!(parse_i32("-13"), Some(-13));
    assert_eq!(parse_i32("+5"), Some(5));
    assert_eq!(parse_i32("five"), None);
}

#[test]
fn chars_of_keeps_every_character() {
    assert_eq!(chars_of("a☺b"), vec!['a', '☺', 'b']);
    assert_eq!(chars_of(""), Vec::<char>::new());
}

fn channel(byte: u8) -> Real {
    Real::from_bits((byte as f32 / 255.0).to_bits())
}

fn rgb(r: u8, g: u8, b: u8) -> Color {
    Color { r: channel(r), g: channel(g), b: channel(b) }
}

#[test]
fn hex_colour_exact_values() {
    assert_eq!(parse_hex_color("#FF8800"), Some(rgb(255, 136, 0)));
    assert_eq!(parse_hex_color("#000000"), Some(rgb(0, 0, 0)));
    assert_eq!(parse_hex_color("#ffffff"), Some(rgb(255, 255, 255)));
    assert_eq!(parse_hex_color("#aBcDeF"), Some(rgb(0xab, 0xcd, 0xef)));
    assert_eq!(parse_hex_color("#012345"), Some(rgb(0x01, 0x23, 0x45)));
    let red = parse_hex_color("#FF0000").unwrap();
    assert_eq!(f32::from_bits(red.r.to_bits()), 1.0);
    assert_eq!(f32::from_bits(red.g.to_bits()), 0.0);
    assert_eq!(red.b.to_bits(), 0);
}

#[test]
fn hex_colour_malformed_is_rejected() {
    for text in [
        "", "#", "FF8800", "#FF880", "#FF88000", "#GG8800", "#FF 800", "0xFF8800", "#ff88zz", "#ＦＦ8800",
        "##FF880", "#FF+800", "#-F8800",
    ] {
        assert_eq!(parse_hex_color(text), None, "{:?}", text);
    }
}

#[test]
fn hex_colour_is_the_toolkit_colour() {
    for text in ["#FF8800", "#000000", "#ffffff", "#123abc", "#7f7F7f"] {
        let theirs = rltk::RGB::from_hex(text).unwrap();
        let ours = parse_hex_color(text).unwrap();
        assert_eq!(f32::from_bits(ours.r.to_bits()), theirs.r);
        assert_eq!(f32::from_bits(ours.g.to_bits()), theirs.g);
        assert_eq!(f32::from_bits(ours.b.to_bits()), theirs.b);
    }
}

#[test]
fn attribute_bonus_exact_values() {
    assert_eq!(attr_bonus(11), 0);
    assert_eq!(attr_bonus(10), 0);
    assert_eq!(attr_bonus(12), 1);
    assert_eq!(attr_bonus(18), 4);
    assert_eq!(attr_bonus(9), 0);
    assert_eq!(attr_bonus(8), -1);
    assert_eq!(attr_bonus(3), -3);
    assert_eq!(attr_bonus(i32::MIN), -1073741829);
    assert_eq!(attr_bonus(i32::MAX), 1073741818);
}

#[test]
fn hit_points_exact_values() {
    assert_eq!(npc_hp(11, 1), Some(9));
    assert_eq!(npc_hp(14, 3), Some(31));
    assert_eq!(npc_hp(11, 0), Some(1));
    assert_eq!(npc_hp(11, -5), Some(1));
    assert_eq!(npc_hp(-100, 4), Some(5));
    assert_eq!(npc_hp(i32::MAX, i32::MAX), None);
}

#[test]
fn mana_exact_values() {
    assert_eq!(mana_at_level(11, 1), Some(4));
    assert_eq!(mana_at_level(11, 2), Some(8));
    assert_eq!(mana_at_level(16, 3), Some(21));
    assert_eq!(mana_at_level(1, 5), Some(5));
    assert_eq!(mana_at_level(11, -2), Some(-8));
    assert_eq!(mana_at_level(i32::MAX, i32::MAX), None);
}

#[test]
fn float_text_exact_cases() {
    for text in [
        "2.0", "0", "7", "-7", "+7", "1.", ".5", "1.5e3", "1e5", "1E5", "1e+5", "1e-5", "1.e5", ".5e1",
        "inf", "INF", "Inf", "+inf", "-infinity", "Infinity", "nan", "NaN", "-nan", "00.10", "1e0005",
        "340282350000000000000000000000000000000000000", "1e999",
    ] {
        assert!(is_float(text), "{:?}", text);
    }
    for text in [
        "", ".", "+", "-", "e5", ".e5", "1e", "1e+", "1e5.0", "1.5.2", " 1", "1 ", "1_000", "0x10", "1f32",
        "in", "infinit", "infinityy", "na", "nane", "++1", "+-1", "1,5", "٣", "1ee5", "--inf", "i",
    ] {
        assert!(!is_float(text), "{:?}", text);
    }
}

#[test]
fn float_text_is_what_std_parses() {
    let alphabet = ['0', '7', '.', 'e', 'E', '+', '-', 'i', 'n', 'f', 'a', 'N', ' '];
    let mut texts: Vec<String> = vec![String::new()];
    let mut start = 0;
    for _ in 0..4 {
        let end = texts.len();
        for i in start..end {
            for c in alphabet {
                let mut t = texts[i].clone();
                t.push(c);
                texts.push(t);
            }
        }
        start = end;
    }
    for word in ["infinity", "INFINITY", "InFiNiTy", "infinit", "infinityy", "+infinity", "-Infinity", "nan0"] {
        texts.push(word.to_string());
    }
    assert!(texts.len() > 30000);
    for text in texts {
        assert_eq!(is_float(&text), text.parse::<f32>().is_ok(), "{:?}", text);
    }
}
