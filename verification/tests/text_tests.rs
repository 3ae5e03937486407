use clob_bridge::line::{read_line, take_reading, Reading, Turn};
use clob_bridge::run_id::{generate_run_id, run_id_at, run_id_from};
use clob_bridge::text::joined;
use clob_bridge::text::{
    chars_of, clone_opt, eq_ignore_ascii_case, is_whitespace_char, push_decimal, push_hex8,
    same_text, trim,
};

#[test]
fn trim_removes_surrounding_white_space() {
    assert_eq!(trim("  {\"cmd\":\"auth\"} \r\n"), "{\"cmd\":\"auth\"}");
    assert_eq!(trim("abc"), "abc");
    assert_eq!(trim("a b"), "a b");
    assert_eq!(trim("\t a \u{3000}b\u{a0}\u{2003}"), "a \u{3000}b");
    assert_eq!(trim(""), "");
    assert_eq!(trim(" \t\r\n"), "");
}

#[test]
fn trim_agrees_with_the_standard_library() {
    let samples = [
        "", " ", "x", " x", "x ", " x y ", "\u{85}x\u{1680}", "\u{2028}\u{2029}",
        "\u{200b}x\u{200b}", "\u{feff}x", "\u{1c}x\u{1f}", "\u{202f}é\u{205f}", "\u{b}\u{c}z",
    ];
    for s in samples {
        assert_eq!(trim(s), s.trim());
    }
}

#[test]
fn is_whitespace_char_agrees_with_the_standard_library() {
    for code in 0u32..0x3100 {
        if let Some(c) = char::from_u32(code) {
            assert_eq!(is_whitespace_char(c), c.is_whitespace(), "code {:x}", code);
        }
    }
    assert!(!is_whitespace_char('\u{10ffff}'));
}

#[test]
fn read_line_skips_blank_lines() {
    assert_eq!(read_line(""), None);
    assert_eq!(read_line("   "), None);
    assert_eq!(read_line("\t\r\n"), None);
    assert_eq!(read_line("\u{a0}\u{3000}"), None);
}

#[test]
fn read_line_gives_the_trimmed_text() {
    assert_eq!(read_line(" {\"cmd\":\"exit\"}\n"), Some("{\"cmd\":\"exit\"}".to_string()));
    assert_eq!(read_line("x"), Some("x".to_string()));
}

#[test]
fn eq_ignore_ascii_case_folds_only_ascii_letters() {
    assert!(eq_ignore_ascii_case("buy", "buy"));
    assert!(eq_ignore_ascii_case("BUY", "buy"));
    assert!(eq_ignore_ascii_case("bUy", "Buy"));
    assert!(!eq_ignore_ascii_case("buy ", "buy"));
    assert!(!eq_ignore_ascii_case("bu", "buy"));
    assert!(!eq_ignore_ascii_case("sell", "buy"));
    assert!(!eq_ignore_ascii_case("É", "é"));
    assert!(!eq_ignore_ascii_case("[", "{"));
    assert!(!eq_ignore_ascii_case("@", "`"));
    assert!(eq_ignore_ascii_case("", ""));
    for (a, b) in [("Buy", "bUY"), ("a1", "A1"), ("é", "é"), ("k", "K"), ("k", "\u{212a}")] {
        assert_eq!(eq_ignore_ascii_case(a, b), a.eq_ignore_ascii_case(b));
    }
}

#[test]
fn small_text_helpers() {
    assert_eq!(joined("Order failed: ", "x"), "Order failed: x");
    assert_eq!(joined("", ""), "");
    assert!(same_text("auth", "auth"));
    assert!(!same_text("auth", "Auth"));
    assert_eq!(chars_of("aé"), vec!['a', 'é']);
    assert_eq!(clone_opt(&Some("x".to_string())), Some("x".to_string()));
    assert_eq!(clone_opt(&None), None);
}

#[test]
fn push_decimal_writes_numerals() {
    for n in [0u128, 7, 9, 10, 11, 99, 100, 1234567890, u64::MAX as u128, u128::MAX] {
        let mut out = String::from("n=");
        push_decimal(&mut out, n);
        assert_eq!(out, format!("n={}", n));
    }
}

#[test]
fn push_hex8_writes_eight_lower_case_digits() {
    for v in [0u32, 1, 0xf, 0x10, 0x3039, 0xabcdef01, 0x0000_beef, u32::MAX] {
        let mut out = String::from("0x");
        push_hex8(&mut out, v);
        assert_eq!(out, format!("0x{:08x}", v));
    }
}

#[test]
fn run_id_at_formats_time_and_seed() {
    assert_eq!(run_id_at(0), "run_0_00003039");
    assert_eq!(run_id_at(1), "run_1_41c67ea6");
    assert_eq!(run_id_at(1761612345678), "run_1761612345678_c7a9f26f");
    assert_eq!(run_id_at(4294967296), "run_4294967296_00003039");
    assert_eq!(
        run_id_at(u128::MAX),
        "run_340282366920938463463374607431768211455_be39e1cc"
    );
}

#[test]
fn run_id_at_matches_the_wrapping_formula() {
    for ts in [0u128, 5, 1_700_000_000_000, 0xffff_ffff, 0x1_0000_0001, u128::MAX - 3] {
        let seed = (ts as u32).wrapping_mul(1103515245).wrapping_add(12345);
        assert_eq!(run_id_at(ts), format!("run_{}_{:08x}", ts, seed));
    }
}

#[test]
fn generate_run_id_is_the_id_of_its_own_time() {
    let id = generate_run_id();
    let parts: Vec<&str> = id.split('_').collect();
    assert_eq!(parts.len(), 3);
    assert_eq!(parts[0], "run");
    assert_eq!(parts[2].len(), 8);
    let ts: u128 = parts[1].parse().unwrap();
    assert!(ts > 1_600_000_000_000);
    assert_eq!(id, run_id_at(ts));
}

#[test]
fn the_loop_finishes_only_at_the_end_of_the_input() {
    assert_eq!(take_reading(Reading::End), Turn::Finish);
    assert_eq!(take_reading(Reading::Unreadable { error: "stream did not contain valid UTF-8".to_string() }), Turn::Skip);
    assert_eq!(take_reading(Reading::Line { raw: String::new() }), Turn::Skip);
    assert_eq!(take_reading(Reading::Line { raw: "  \t".to_string() }), Turn::Skip);
    assert_eq!(
        take_reading(Reading::Line { raw: " {\"cmd\":\"exit\"} ".to_string() }),
        Turn::Parse { text: "{\"cmd\":\"exit\"}".to_string() }
    );
    assert_eq!(
        take_reading(Reading::Line { raw: "not json".to_string() }),
        Turn::Parse { text: "not json".to_string() }
    );
}

#[test]
fn a_clock_before_the_epoch_counts_as_zero() {
    assert_eq!(run_id_from(None), "run_0_00003039");
    assert_eq!(run_id_from(Some(0)), "run_0_00003039");
    assert_eq!(run_id_from(Some(1)), "run_1_41c67ea6");
    assert_eq!(run_id_from(Some(1761612345678)), "run_1761612345678_c7a9f26f");
    assert_eq!(run_id_from(Some(u128::MAX)), run_id_at(u128::MAX));
}
