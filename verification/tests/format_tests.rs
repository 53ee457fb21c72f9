use parquet_ui::format::{
    escape_json, format_count, human_bytes, is_number_literal, list_render, map_render,
    push_indent, struct_render, NestedNode,
};

fn bytes_as_f64_text(bytes: u64) -> String {
    let units = ["B", "KiB", "MiB", "GiB", "TiB"];
    let mut value = bytes as f64;
    let mut unit = 0;
    while value >= 1024.0 && unit < units.len() - 1 {
        value /= 1024.0;
        unit += 1;
    }
    if unit == 0 {
        format!("{} {}", bytes, units[0])
    } else {
        format!("{:.2} {}", value, units[unit])
    }
}

#[test]
fn human_bytes_examples() {
    assert_eq!(human_bytes(0), "0 B");
    assert_eq!(human_bytes(1023), "1023 B");
    assert_eq!(human_bytes(1024), "1.00 KiB");
    assert_eq!(human_bytes(1536), "1.50 KiB");
    assert_eq!(human_bytes(1048576), "1.00 MiB");
    assert_eq!(human_bytes(1073741824), "1.00 GiB");
    assert_eq!(human_bytes(1099511627776), "1.00 TiB");
    assert_eq!(human_bytes(u64::MAX), "16777216.00 TiB");
}

#[test]
fn human_bytes_matches_float_formatting() {
    let mut checked = 0u64;
    for b in 0u64..20000 {
        assert_eq!(human_bytes(b), bytes_as_f64_text(b), "bytes {b}");
        checked += 1;
    }
    for k in 1u32..=5 {
        let base = 1u64 << (10 * k);
        for d in 0u64..3000 {
            for b in [base.wrapping_sub(d), base.wrapping_add(d), base * 3 / 2 + d] {
                assert_eq!(human_bytes(b), bytes_as_f64_text(b), "bytes {b}");
                checked += 1;
            }
        }
    }
    let mut x: u64 = 0x9e37_79b9_7f4a_7c15;
    for _ in 0..200000 {
        x ^= x << 13;
        x ^= x >> 7;
        x ^= x << 17;
        let shift = (x % 64) as u32;
        let b = x >> shift;
        assert_eq!(human_bytes(b), bytes_as_f64_text(b), "bytes {b}");
        checked += 1;
    }
    assert!(checked > 200000);
}

#[test]
fn human_bytes_rounds_halves_like_float_formatting() {
    // 1.125 KiB, 1.375 KiB and 2.005 MiB sit on or near a tie of two decimals.
    for b in [1152u64, 1408, 2102394, 1029, 1034, 5125, 10245, 1048576 * 1000 + 5243] {
        assert_eq!(human_bytes(b), bytes_as_f64_text(b), "bytes {b}");
    }
}

#[test]
fn format_count_groups_digits() {
    assert_eq!(format_count(0), "0");
    assert_eq!(format_count(999), "999");
    assert_eq!(format_count(1000), "1,000");
    assert_eq!(format_count(1234567), "1,234,567");
    assert_eq!(format_count(-1234), "-1,234");
    assert_eq!(format_count(-12), "-12");
    assert_eq!(format_count(i64::MIN), "-9,223,372,036,854,775,808");
    assert_eq!(format_count(i64::MAX), "9,223,372,036,854,775,807");
}

#[test]
fn format_count_digits_survive_grouping() {
    for n in [1i64, 12, 123, 1234, 12345, 123456, 1234567, -7654321] {
        let shown = format_count(n);
        assert_eq!(shown.replace(',', ""), n.to_string());
    }
}

#[test]
fn escape_json_escapes_quotes_backslashes_and_controls() {
    assert_eq!(escape_json("plain"), "plain");
    assert_eq!(escape_json("a\"b"), "a\\\"b");
    assert_eq!(escape_json("back\\slash"), "back\\\\slash");
    assert_eq!(escape_json("l1\nl2\r\t"), "l1\\nl2\\r\\t");
    assert_eq!(escape_json("\u{1}\u{1f}"), "\\u0001\\u001f");
    assert_eq!(escape_json("é \u{7f}"), "é \u{7f}");
}

#[test]
fn escaped_json_has_no_control_characters() {
    let all: String = (0u32..0x80).filter_map(char::from_u32).collect();
    let escaped = escape_json(&all);
    assert!(escaped.chars().all(|c| (c as u32) >= 0x20));
}

const FLOAT_SAMPLES: [&str; 44] = [
    "", "1", "+1", "-1", ".", "1.", ".5", "+.5", "-.5e-3", "1e5", "1e", "e5", "1E+5", "1e-5",
    "1e+", "1.e5", ".e5", "inf", "+inf", "-inf", "Infinity", "-Infinity", "INFINITY", "infinit",
    "NaN", "nan", "-nan", "nAn", " 1", "1 ", "0x10", "1_000", "1.2.3", "--1", "+-1", "١",
    "00.00", "1e400", "123456789012345678901234567890", "5e-400", "e", "+", "-", "infx",
];

/// What `f64::from_str` accepts, less its words for infinity and NaN.
fn numeric_by_std(s: &str) -> bool {
    let word = s.strip_prefix(['+', '-']).unwrap_or(s).to_ascii_lowercase();
    s.parse::<f64>().is_ok() && !["inf", "infinity", "nan"].contains(&word.as_str())
}

#[test]
fn number_literals_agree_with_std_on_samples() {
    for s in FLOAT_SAMPLES {
        assert_eq!(is_number_literal(s), numeric_by_std(s), "input {s:?}");
    }
    assert!(is_number_literal("-12.5e3"));
    assert!(!is_number_literal("NaN"));
    assert!(!is_number_literal("-inf"));
    assert!(!is_number_literal("Infinity"));
}

#[test]
fn number_literals_agree_with_std_on_short_strings() {
    let alphabet = ['1', '.', 'e', '+', '-', 'i', 'n', 'a', 'f', 'E'];
    let mut words = vec![String::new()];
    for _ in 0..4 {
        let mut next = Vec::new();
        for w in &words {
            for c in alphabet {
                next.push(format!("{w}{c}"));
            }
        }
        for w in &next {
            assert_eq!(is_number_literal(w), numeric_by_std(w), "input {w:?}");
        }
        words = next;
    }
}

#[test]
fn json_of_scalars_passes_numbers_and_words_through() {
    assert_eq!(NestedNode::Leaf("12.5".to_string()).to_json_string(), "12.5");
    assert_eq!(NestedNode::Leaf("true".to_string()).to_json_string(), "true");
    assert_eq!(NestedNode::Leaf("false".to_string()).to_json_string(), "false");
    assert_eq!(NestedNode::Leaf("-3e2".to_string()).to_json_string(), "-3e2");
    assert_eq!(NestedNode::Leaf("null".to_string()).to_json_string(), "\"null\"");
    assert_eq!(NestedNode::Leaf("NaN".to_string()).to_json_string(), "\"NaN\"");
    assert_eq!(NestedNode::Leaf("inf".to_string()).to_json_string(), "\"inf\"");
    assert_eq!(NestedNode::Leaf("-Infinity".to_string()).to_json_string(), "\"-Infinity\"");
    assert_eq!(NestedNode::Leaf("abc".to_string()).to_json_string(), "\"abc\"");
    assert_eq!(NestedNode::Leaf("".to_string()).to_json_string(), "\"\"");
    assert_eq!(NestedNode::Leaf("say \"hi\"".to_string()).to_json_string(), "\"say \\\"hi\\\"\"");
    assert_eq!(NestedNode::Null.to_json_string(), "null");
}

#[test]
fn json_of_nested_values_is_indented() {
    let node = NestedNode::Struct(vec![
        ("id".to_string(), NestedNode::Leaf("7".to_string())),
        (
            "tags".to_string(),
            NestedNode::List(vec![NestedNode::Leaf("a".to_string()), NestedNode::Null]),
        ),
        ("empty".to_string(), NestedNode::List(vec![])),
    ]);
    let expected = "{\n  \"id\": 7,\n  \"tags\": [\n    \"a\",\n    null\n  ],\n  \"empty\": []\n}";
    assert_eq!(node.to_json_string(), expected);
}

#[test]
fn json_of_maps_uses_key_text() {
    let node = NestedNode::Mapping(vec![
        (NestedNode::Leaf("k\"1".to_string()), NestedNode::Leaf("1".to_string())),
        (NestedNode::Null, NestedNode::Leaf("x".to_string())),
        (
            NestedNode::List(vec![NestedNode::Leaf("2".to_string())]),
            NestedNode::Struct(vec![]),
        ),
    ]);
    let expected =
        "{\n  \"k\\\"1\": 1,\n  \"null\": \"x\",\n  \"[\\n  2\\n]\": {}\n}";
    assert_eq!(node.to_json_string(), expected);
    assert_eq!(NestedNode::Mapping(vec![]).to_json_string(), "{}");
}

#[test]
fn push_indent_adds_two_spaces_per_level() {
    let mut s = String::from("x");
    push_indent(&mut s, 3);
    assert_eq!(s, "x      ");
    push_indent(&mut s, 0);
    assert_eq!(s, "x      ");
}

fn strings(v: &[&str]) -> Vec<String> {
    v.iter().map(|s| s.to_string()).collect()
}

#[test]
fn list_previews() {
    assert_eq!(list_render(0, &vec![]), "[]");
    assert_eq!(list_render(2, &strings(&["1", "2"])), "[1, 2]");
    assert_eq!(list_render(3, &strings(&["a", "b", "c"])), "[a, b, c]");
    assert_eq!(list_render(4, &vec![]), "[4 items]");
}

#[test]
fn struct_previews() {
    assert_eq!(struct_render(&vec![], &vec![]), "{}");
    assert_eq!(struct_render(&strings(&["a", "b"]), &strings(&["1", "2"])), "{a: 1, b: 2}");
    assert_eq!(
        struct_render(&strings(&["a", "b", "c", "d"]), &strings(&["1", "2", "3"])),
        "{a: 1, b: 2, c: 3, \u{2026}}"
    );
}

#[test]
fn map_previews() {
    assert_eq!(map_render(0, &vec![], &vec![]), "{}");
    assert_eq!(map_render(1, &strings(&["k"]), &strings(&["v"])), "{k: v}");
    assert_eq!(map_render(9, &vec![], &vec![]), "{9 entries}");
}
