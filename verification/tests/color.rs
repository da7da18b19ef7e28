use ahc_vdsl::{Color, BLACK, BLUE, CYAN, GRAY, GREEN, MAGENTA, RED, WHITE, YELLOW};

#[test]
fn ahc_vdsl_tests_test_color_display() {
    assert_eq!(WHITE().to_hex_string(), "#FFFFFF");
    assert_eq!(BLACK().to_hex_string(), "#000000");
    assert_eq!(RED().to_hex_string(), "#FF0000");
    assert_eq!(GREEN().to_hex_string(), "#00FF00");
    assert_eq!(BLUE().to_hex_string(), "#0000FF");
    assert_eq!(YELLOW().to_hex_string(), "#FFFF00");
    assert_eq!(CYAN().to_hex_string(), "#00FFFF");
    assert_eq!(MAGENTA().to_hex_string(), "#FF00FF");
}

#[test]
fn tests_test_color_display() {
    assert_eq!(WHITE().to_hex_string(), "#FFFFFF");
    assert_eq!(BLACK().to_hex_string(), "#000000");
    assert_eq!(RED().to_hex_string(), "#FF0000");
    assert_eq!(GREEN().to_hex_string(), "#00FF00");
    assert_eq!(BLUE().to_hex_string(), "#0000FF");
    assert_eq!(YELLOW().to_hex_string(), "#FFFF00");
    assert_eq!(CYAN().to_hex_string(), "#00FFFF");
    assert_eq!(MAGENTA().to_hex_string(), "#FF00FF");
}

#[test]
fn test_color_from_string() {
    let color = Color::from(&"#FF8800".to_string());
    assert_eq!(color.to_hex_string(), "#FF8800");

    let color2 = Color::from(&"00FF00".to_string());
    assert_eq!(color2.to_hex_string(), "#00FF00");
}

#[test]
fn gray_is_mid_gray() {
    assert_eq!(GRAY().to_hex_string(), "#808080");
    assert!(GRAY() == Color::new(128, 128, 128));
}

#[test]
fn every_color_reads_back() {
    for r in [0u8, 1, 9, 10, 15, 16, 127, 128, 200, 254, 255] {
        for g in [0u8, 7, 99, 160, 255] {
            for b in [0u8, 11, 171, 255] {
                let c = Color::new(r, g, b);
                assert!(Color::from_hex(&c.to_hex_string()) == c);
                assert!(Color::from(&c.to_hex_string()) == c);
            }
        }
    }
}

#[test]
fn lower_case_digits_are_read() {
    assert!(Color::from_hex("#a1b2c3") == Color::new(0xA1, 0xB2, 0xC3));
    assert!(Color::from_hex("AbCdEf") == Color::new(0xAB, 0xCD, 0xEF));
}

#[test]
fn what_cannot_be_read_counts_as_zero() {
    assert!(Color::from_hex("") == Color::new(0, 0, 0));
    assert!(Color::from_hex("#") == Color::new(0, 0, 0));
    assert!(Color::from_hex("#12") == Color::new(0x12, 0, 0));
    assert!(Color::from_hex("#123") == Color::new(0x12, 0, 0));
    assert!(Color::from_hex("12345") == Color::new(0x12, 0x34, 0));
    assert!(Color::from_hex("#12zz56") == Color::new(0x12, 0, 0x56));
    assert!(Color::from_hex("#1g3456") == Color::new(0, 0x34, 0x56));
    assert!(Color::from_hex("#+13456") == Color::new(0, 0x34, 0x56));
    assert!(Color::from_hex("##123456") == Color::new(0, 0x23, 0x45));
    assert!(Color::from_hex("#é23456") == Color::new(0, 0x34, 0x56));
}

#[test]
fn text_after_the_third_pair_is_ignored() {
    assert!(Color::from_hex("#102030ff") == Color::new(0x10, 0x20, 0x30));
    assert!(Color::from_hex("102030 and more") == Color::new(0x10, 0x20, 0x30));
}

#[test]
fn codes_tell_colors_apart() {
    assert_eq!(Color::new(0x12, 0x34, 0x56).code(), 0x123456);
    assert_eq!(WHITE().code(), 0xFFFFFF);
    assert_eq!(BLACK().code(), 0);
    assert!(Color::new(1, 0, 0).code() != Color::new(0, 1, 0).code());
}
