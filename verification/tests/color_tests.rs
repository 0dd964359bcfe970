use adesh_aot::color::{make_bg_color_escape, make_fg_color_escape, parse_hex_color};

#[test]
fn six_digit_colours() {
    assert_eq!(parse_hex_color("#ff8000"), Some((255, 128, 0)));
    assert_eq!(parse_hex_color("00FFaa"), Some((0, 255, 170)));
    assert_eq!(parse_hex_color("##102030"), Some((16, 32, 48)));
}

#[test]
fn three_digit_colours_repeat_each_digit() {
    assert_eq!(parse_hex_color("#abc"), Some((0xaa, 0xbb, 0xcc)));
    assert_eq!(parse_hex_color("#0f0"), Some((0, 255, 0)));
}

#[test]
fn a_sign_is_not_a_hex_digit() {
    assert_eq!(parse_hex_color("#+f0000"), None);
    assert_eq!(parse_hex_color("#+f+f+f"), None);
    assert_eq!(parse_hex_color("#+ab"), None);
}

#[test]
fn formatted_colours_read_back() {
    for (r, g, b) in [(0u8, 0u8, 0u8), (255, 128, 7), (18, 52, 86)] {
        assert_eq!(parse_hex_color(&format!("#{:02x}{:02x}{:02x}", r, g, b)), Some((r, g, b)));
        assert_eq!(parse_hex_color(&format!("#{:02X}{:02X}{:02X}", r, g, b)), Some((r, g, b)));
    }
}

#[test]
fn other_texts_are_not_colours() {
    assert_eq!(parse_hex_color("#12345"), None);
    assert_eq!(parse_hex_color("#gg0000"), None);
    assert_eq!(parse_hex_color(""), None);
    assert_eq!(parse_hex_color("#"), None);
    assert_eq!(parse_hex_color("#éab"), None);
}

#[test]
fn escapes() {
    assert_eq!(make_fg_color_escape(255, 128, 0), "\x1b[38;2;255;128;0m");
    assert_eq!(make_bg_color_escape(0, 7, 42), "\x1b[48;2;0;7;42m");
}

#[test]
fn literals_that_would_cut_a_character() {
    use_cut_checks();
}

fn use_cut_checks() {
    assert!(adesh_aot::color::would_cut_character("#aébcd"));
    assert!(adesh_aot::color::would_cut_character("#12aé1"));
    assert!(adesh_aot::color::would_cut_character("#1éab1"));
    assert!(!adesh_aot::color::would_cut_character("#ab12é"));
    assert_eq!(adesh_aot::color::parse_hex_color("#ab12é"), None);
    assert!(!adesh_aot::color::would_cut_character("#é1234"));
    assert!(!adesh_aot::strings::color_safe_text("#aébcd"));
    assert!(adesh_aot::strings::color_safe_text("aébcd"));
    assert!(adesh_aot::strings::color_safe_text("#ffffff"));
}
