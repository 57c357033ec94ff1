use lapce_shell::color::{hex_digit, hex_to_color, Color, ColorParseError};

#[test]
fn six_digits_with_mark() {
    assert_eq!(hex_to_color("#FFFFFF"), Ok(Color { red: 255, green: 255, blue: 255, alpha: 255 }));
    assert_eq!(hex_to_color("#000000"), Ok(Color { red: 0, green: 0, blue: 0, alpha: 255 }));
    assert_eq!(hex_to_color("#c4c4c4"), Ok(Color { red: 0xc4, green: 0xc4, blue: 0xc4, alpha: 255 }));
}

#[test]
fn six_digits_without_mark() {
    assert_eq!(hex_to_color("1a2B3c"), Ok(Color { red: 0x1a, green: 0x2b, blue: 0x3c, alpha: 255 }));
}

#[test]
fn eight_digits_carry_alpha() {
    assert_eq!(hex_to_color("#11223344"), Ok(Color { red: 0x11, green: 0x22, blue: 0x33, alpha: 0x44 }));
    assert_eq!(hex_to_color("fFeEdD00"), Ok(Color { red: 0xff, green: 0xee, blue: 0xdd, alpha: 0 }));
}

#[test]
fn three_digits_double_each_digit() {
    assert_eq!(hex_to_color("#BAD"), Ok(Color { red: 0xbb, green: 0xaa, blue: 0xdd, alpha: 255 }));
    assert_eq!(hex_to_color("#BAD"), hex_to_color("BBAADD"));
    assert_eq!(hex_to_color("09f"), Ok(Color { red: 0x00, green: 0x99, blue: 0xff, alpha: 255 }));
}

#[test]
fn four_digits_double_each_digit_and_carry_alpha() {
    assert_eq!(hex_to_color("#BAD7"), Ok(Color { red: 0xbb, green: 0xaa, blue: 0xdd, alpha: 0x77 }));
    assert_eq!(hex_to_color("BAD7"), hex_to_color("#BBAADD77"));
}

#[test]
fn wrong_length_reports_the_number_of_digits() {
    assert_eq!(hex_to_color(""), Err(ColorParseError::WrongLength { digits: 0 }));
    assert_eq!(hex_to_color("#"), Err(ColorParseError::WrongLength { digits: 0 }));
    assert_eq!(hex_to_color("#12"), Err(ColorParseError::WrongLength { digits: 2 }));
    assert_eq!(hex_to_color("12345"), Err(ColorParseError::WrongLength { digits: 5 }));
    assert_eq!(hex_to_color("#1234567"), Err(ColorParseError::WrongLength { digits: 7 }));
    assert_eq!(hex_to_color("#123456789"), Err(ColorParseError::WrongLength { digits: 9 }));
}

#[test]
fn only_one_mark_is_dropped() {
    assert_eq!(hex_to_color("##ffffff"), Err(ColorParseError::WrongLength { digits: 7 }));
    assert_eq!(hex_to_color("##fff"), Err(ColorParseError::NotHexDigit { index: 1, found: '#' }));
}

#[test]
fn a_mark_in_place_of_a_digit_is_no_digit() {
    assert_eq!(hex_to_color("fff#"), Err(ColorParseError::NotHexDigit { index: 3, found: '#' }));
}

#[test]
fn first_bad_character_is_reported_with_its_place_in_the_text() {
    assert_eq!(hex_to_color("#12x"), Err(ColorParseError::NotHexDigit { index: 3, found: 'x' }));
    assert_eq!(hex_to_color("12x"), Err(ColorParseError::NotHexDigit { index: 2, found: 'x' }));
    assert_eq!(hex_to_color("ggg"), Err(ColorParseError::NotHexDigit { index: 0, found: 'g' }));
    assert_eq!(hex_to_color("#a-c+e!"), Err(ColorParseError::NotHexDigit { index: 2, found: '-' }));
}

#[test]
fn length_is_checked_before_digits() {
    assert_eq!(hex_to_color("zz"), Err(ColorParseError::WrongLength { digits: 2 }));
}

#[test]
fn characters_outside_ascii_are_counted_one_by_one() {
    assert_eq!(hex_to_color("#a\u{e9}c"), Err(ColorParseError::NotHexDigit { index: 2, found: '\u{e9}' }));
    assert_eq!(hex_to_color("\u{e9}\u{e9}"), Err(ColorParseError::WrongLength { digits: 2 }));
}

#[test]
fn hex_digit_values() {
    assert_eq!(hex_digit('0'), Some(0));
    assert_eq!(hex_digit('9'), Some(9));
    assert_eq!(hex_digit('a'), Some(10));
    assert_eq!(hex_digit('f'), Some(15));
    assert_eq!(hex_digit('A'), Some(10));
    assert_eq!(hex_digit('F'), Some(15));
    assert_eq!(hex_digit('g'), None);
    assert_eq!(hex_digit('G'), None);
    assert_eq!(hex_digit('/'), None);
    assert_eq!(hex_digit(':'), None);
    assert_eq!(hex_digit('@'), None);
    assert_eq!(hex_digit('`'), None);
    assert_eq!(hex_digit('#'), None);
}

#[test]
fn rgb8_is_opaque() {
    assert_eq!(Color::rgb8(125, 126, 127), Color { red: 125, green: 126, blue: 127, alpha: 255 });
    assert_eq!(Color::rgba8(1, 2, 3, 4), Color { red: 1, green: 2, blue: 3, alpha: 4 });
}
