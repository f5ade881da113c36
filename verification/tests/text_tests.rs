use cpu_tray::text::{decimal_string, encode_utf16, idle_tooltip_text, load_tooltip_text, wide};

#[test]
fn wide_appends_terminating_zero() {
    let expected: Vec<u16> = "CpuTray".encode_utf16().chain(std::iter::once(0)).collect();
    assert_eq!(wide("CpuTray"), expected);
    assert_eq!(wide(""), vec![0u16]);
}

#[test]
fn encode_utf16_matches_std() {
    for s in ["", "Exit", "CPU: 100%", "é", "€uro", "a😀b", "\u{10FFFF}"] {
        let expected: Vec<u16> = s.encode_utf16().collect();
        assert_eq!(encode_utf16(s), expected, "{}", s);
    }
}

#[test]
fn encode_utf16_surrogate_pair() {
    assert_eq!(encode_utf16("😀"), vec![0xD83D, 0xDE00]);
    assert_eq!(encode_utf16("\u{10000}"), vec![0xD800, 0xDC00]);
}

#[test]
fn decimal_string_matches_to_string() {
    for v in 0..=255u8 {
        assert_eq!(decimal_string(v), v.to_string());
    }
    assert_eq!(decimal_string(0), "0");
    assert_eq!(decimal_string(42), "42");
    assert_eq!(decimal_string(100), "100");
}

#[test]
fn tooltip_texts() {
    assert_eq!(idle_tooltip_text(), "CPU");
    assert_eq!(load_tooltip_text(0), "CPU: 0%");
    assert_eq!(load_tooltip_text(42), "CPU: 42%");
    assert_eq!(load_tooltip_text(100), "CPU: 100%");
    for v in 0..=255u8 {
        assert_eq!(load_tooltip_text(v), format!("CPU: {}%", v));
    }
}
