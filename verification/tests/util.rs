use g203_lib::controller::has_kernel_driver;
use g203_lib::util::{hex_digit, hex_to_rgb, same_text, ColorError};

#[test]
fn colours_are_read_from_six_digits() {
    assert_eq!(hex_to_rgb("FF0000"), Ok([0xFF, 0x00, 0x00]));
    assert_eq!(hex_to_rgb("00ff00"), Ok([0x00, 0xFF, 0x00]));
    assert_eq!(hex_to_rgb("0000fF"), Ok([0x00, 0x00, 0xFF]));
    assert_eq!(hex_to_rgb("000000"), Ok([0, 0, 0]));
    assert_eq!(hex_to_rgb("123456"), Ok([0x12, 0x34, 0x56]));
    assert_eq!(hex_to_rgb("789aBc"), Ok([0x78, 0x9A, 0xBC]));
    assert_eq!(hex_to_rgb("DeF019"), Ok([0xDE, 0xF0, 0x19]));
}

#[test]
fn the_first_digit_of_a_channel_counts_sixteenfold() {
    assert_eq!(hex_to_rgb("100102"), Ok([16, 1, 2]));
    assert_eq!(hex_to_rgb("0fF0a5"), Ok([15, 240, 165]));
}

#[test]
fn words_of_another_length_are_no_colours() {
    assert_eq!(hex_to_rgb(""), Err(ColorError::Length));
    assert_eq!(hex_to_rgb("F"), Err(ColorError::Length));
    assert_eq!(hex_to_rgb("FF000"), Err(ColorError::Length));
    assert_eq!(hex_to_rgb("FF00000"), Err(ColorError::Length));
    assert_eq!(hex_to_rgb("#FF0000"), Err(ColorError::Length));
    assert_eq!(hex_to_rgb("zzzzz"), Err(ColorError::Length));
    assert_eq!(hex_to_rgb("éé"), Err(ColorError::Length));
}

#[test]
fn words_with_other_characters_are_no_colours() {
    assert_eq!(hex_to_rgb("GG0000"), Err(ColorError::Digit));
    assert_eq!(hex_to_rgb("FF000g"), Err(ColorError::Digit));
    assert_eq!(hex_to_rgb("FF 000"), Err(ColorError::Digit));
    assert_eq!(hex_to_rgb("+f+f+f"), Err(ColorError::Digit));
    assert_eq!(hex_to_rgb("-10000"), Err(ColorError::Digit));
    assert_eq!(hex_to_rgb("0x1234"), Err(ColorError::Digit));
    assert_eq!(hex_to_rgb("ｆｆ0000"), Err(ColorError::Digit));
    assert_eq!(hex_to_rgb("ééééé0"), Err(ColorError::Digit));
}

#[test]
fn digits_have_their_values() {
    let digits = "0123456789abcdef";
    for (value, c) in digits.chars().enumerate() {
        assert_eq!(hex_digit(c), Some(value as u8));
        assert_eq!(hex_digit(c.to_ascii_uppercase()), Some(value as u8));
    }
    for c in ['g', 'G', '/', ':', '@', '`', ' ', '+', '-', 'x', 'é', '٣'] {
        assert_eq!(hex_digit(c), None);
    }
}

#[test]
fn texts_are_compared_character_by_character() {
    assert!(same_text("", ""));
    assert!(same_text("windows", "windows"));
    assert!(same_text("żółw", "żółw"));
    assert!(!same_text("windows", "window"));
    assert!(!same_text("window", "windows"));
    assert!(!same_text("windows", "Windows"));
    assert!(!same_text("linux", "macos"));
    assert!(!same_text("a", ""));
}

#[test]
fn every_system_but_windows_binds_a_kernel_driver() {
    assert!(!has_kernel_driver("windows"));
    assert!(has_kernel_driver("linux"));
    assert!(has_kernel_driver("macos"));
    assert!(has_kernel_driver("freebsd"));
    assert!(has_kernel_driver("Windows"));
    assert!(has_kernel_driver("windows "));
    assert!(has_kernel_driver(""));
}
