use rudit::color::{Color, ColorError};

#[test]
fn parse_lowercase_hex() {
    let c = Color::from_hex("#0a1b2c").unwrap();
    assert_eq!(c, Color { r: 10, g: 27, b: 44 });
}

#[test]
fn parse_uppercase_and_mixed_hex() {
    let c = Color::from_hex("#FF00aB").unwrap();
    assert_eq!(c, Color { r: 255, g: 0, b: 171 });
}

#[test]
fn parse_black_and_white() {
    assert_eq!(Color::from_hex("#000000").unwrap(), Color { r: 0, g: 0, b: 0 });
    assert_eq!(Color::from_hex("#ffffff").unwrap(), Color { r: 255, g: 255, b: 255 });
}

#[test]
fn parse_ignores_trailing_characters() {
    let c = Color::from_hex("#123456 and more").unwrap();
    assert_eq!(c, Color { r: 0x12, g: 0x34, b: 0x56 });
}

#[test]
fn reject_missing_hash() {
    assert_eq!(Color::from_hex("123456"), Err(ColorError::InvalidSyntax));
}

#[test]
fn reject_short_input() {
    assert_eq!(Color::from_hex("#12345"), Err(ColorError::InvalidSyntax));
    assert_eq!(Color::from_hex(""), Err(ColorError::InvalidSyntax));
}

#[test]
fn reject_non_hex_digit() {
    assert_eq!(Color::from_hex("#12345g"), Err(ColorError::InvalidSyntax));
    assert_eq!(Color::from_hex("#zzzzzz"), Err(ColorError::InvalidSyntax));
}

#[test]
fn default_color_is_black() {
    assert_eq!(Color::default(), Color { r: 0, g: 0, b: 0 });
}
