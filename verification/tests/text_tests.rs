use parquet_ui::text::{
    eq_ignore_ascii_case, is_filled, parse_i32_trimmed, parse_usize_trimmed,
    split_csv, trimmed, u64_string,
};

fn samples() -> Vec<String> {
    let mut v: Vec<String> = vec![
        "", " ", "0", "7", "+7", "-7", "++7", "+-7", "-+7", "--7", " 42 ", "\t42\n", "4 2", "042",
        "00000000000000000000000000000000000012", "18446744073709551615",
        "18446744073709551616", "4294967295", "4294967296", "2147483647", "2147483648",
        "-2147483648", "-2147483649", "-0", "+0", "+", "-", "1e3", "1.0", "0x10", "1_000",
        "\u{a0}12", "12\u{3000}", "\u{2003}-5\u{2028}", "\u{85}9", "\u{1680}3", "١٢",
        "99999999999999999999", "12a", "a12", " + 1", "+ 1",
    ]
    .into_iter()
    .map(|s| s.to_string())
    .collect();
    let alphabet = ['1', '0', '+', '-', ' ', '9'];
    for a in alphabet {
        for b in alphabet {
            for c in alphabet {
                v.push(format!("{a}{b}{c}"));
            }
        }
    }
    v
}

#[test]
fn parse_usize_trimmed_agrees_with_std() {
    for s in samples() {
        assert_eq!(parse_usize_trimmed(&s), s.trim().parse::<usize>().ok(), "input {s:?}");
    }
}

#[test]
fn parse_i32_trimmed_agrees_with_std() {
    for s in samples() {
        assert_eq!(parse_i32_trimmed(&s), s.trim().parse::<i32>().ok(), "input {s:?}");
    }
}

#[test]
fn trimmed_agrees_with_std() {
    for s in samples() {
        assert_eq!(trimmed(&s), s.trim(), "input {s:?}");
    }
    assert_eq!(trimmed("\u{feff}x"), "\u{feff}x");
    assert_eq!(trimmed("\u{200b}x\u{200b}"), "\u{200b}x\u{200b}");
}

#[test]
fn is_filled_means_something_besides_whitespace() {
    assert!(!is_filled(""));
    assert!(!is_filled(" \t\n"));
    assert!(!is_filled("\u{3000}"));
    assert!(is_filled(" a "));
    assert!(is_filled("\u{feff}"));
}

fn csv_reference(s: &str) -> Vec<String> {
    s.split(',').map(|p| p.trim().to_string()).filter(|p| !p.is_empty()).collect()
}

#[test]
fn split_csv_trims_and_drops_empty_items() {
    assert_eq!(split_csv("a, b ,c"), vec!["a", "b", "c"]);
    assert_eq!(split_csv(""), Vec::<String>::new());
    assert_eq!(split_csv(" , ,"), Vec::<String>::new());
    assert_eq!(split_csv("one"), vec!["one"]);
    assert_eq!(split_csv(",x,,y,"), vec!["x", "y"]);
    for s in ["a b, c", "\tq\n,\u{a0}r", ",,,", "x,y,z,", " , a , "] {
        assert_eq!(split_csv(s), csv_reference(s), "input {s:?}");
    }
}

#[test]
fn u64_string_is_decimal() {
    for n in [0u64, 1, 9, 10, 99, 100, 12345, u64::MAX] {
        assert_eq!(u64_string(n), n.to_string());
    }
}

#[test]
fn eq_ignore_ascii_case_folds_ascii_only() {
    let v: Vec<char> = "PaRqUeT".chars().collect();
    assert!(eq_ignore_ascii_case(&v, "parquet"));
    assert!(!eq_ignore_ascii_case(&v, "parque"));
    let w: Vec<char> = "ÉTÉ".chars().collect();
    assert!(!eq_ignore_ascii_case(&w, "été"));
    assert!(eq_ignore_ascii_case(&w, "ÉTÉ"));
}
