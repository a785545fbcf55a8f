use raylib_api::chars::{
    contains_digit, ends_with, find_char, push_chars, push_decimal, read_u32, same_chars,
    same_text, starts_with, to_ascii_lower, to_chars, to_text,
};

fn chars(s: &str) -> Vec<char> {
    s.chars().collect()
}

#[test]
fn text_to_chars_and_back() {
    assert_eq!(to_chars("a b*"), vec!['a', ' ', 'b', '*']);
    assert_eq!(to_chars(""), Vec::<char>::new());
    assert_eq!(to_chars("é数"), vec!['é', '数']);
    assert_eq!(to_text(&['x', 'é', '1']), "xé1");
    assert_eq!(to_text(&[]), "");
}

#[test]
fn push_chars_appends() {
    let mut s = String::from("ab");
    push_chars(&mut s, &['c', 'd']);
    assert_eq!(s, "abcd");
    push_chars(&mut s, &[]);
    assert_eq!(s, "abcd");
}

#[test]
fn decimal_notation() {
    for (n, text) in [
        (0u64, "0"),
        (7, "7"),
        (10, "10"),
        (255, "255"),
        (1000, "1000"),
        (4294967295, "4294967295"),
        (18446744073709551615, "18446744073709551615"),
    ] {
        let mut s = String::from("n=");
        push_decimal(&mut s, n);
        assert_eq!(s, format!("n={}", text));
    }
}

#[test]
fn reading_numbers() {
    assert_eq!(read_u32(&chars("0")), Some(0));
    assert_eq!(read_u32(&chars("42")), Some(42));
    assert_eq!(read_u32(&chars("+42")), Some(42));
    assert_eq!(read_u32(&chars("0042")), Some(42));
    assert_eq!(read_u32(&chars("4294967295")), Some(4294967295));
    assert_eq!(read_u32(&chars("4294967296")), None);
    assert_eq!(read_u32(&chars("99999999999999999999")), None);
    assert_eq!(read_u32(&chars("")), None);
    assert_eq!(read_u32(&chars("+")), None);
    assert_eq!(read_u32(&chars("-1")), None);
    assert_eq!(read_u32(&chars("++1")), None);
    assert_eq!(read_u32(&chars("1+")), None);
    assert_eq!(read_u32(&chars(" 1")), None);
    assert_eq!(read_u32(&chars("1 ")), None);
    assert_eq!(read_u32(&chars("1a")), None);
    assert_eq!(read_u32(&chars("٣")), None);
}

#[test]
fn reading_agrees_with_std() {
    for text in ["0", "+7", "007", "4294967295", "4294967296", "", "+", "-", "-0", "12x", "x12", "1_000"] {
        assert_eq!(read_u32(&chars(text)), text.parse::<u32>().ok(), "{:?}", text);
    }
}

#[test]
fn prefixes_and_suffixes() {
    assert!(starts_with(&chars("const int"), &chars("const ")));
    assert!(!starts_with(&chars("cons"), &chars("const ")));
    assert!(!starts_with(&chars("Const int"), &chars("const ")));
    assert!(starts_with(&chars("abc"), &chars("")));
    assert!(starts_with(&chars("abc"), &chars("abc")));
    assert!(ends_with(&chars("int *"), &chars(" *")));
    assert!(!ends_with(&chars("int **"), &chars(" *")));
    assert!(ends_with(&chars("int **"), &chars(" **")));
    assert!(!ends_with(&chars("*"), &chars(" *")));
    assert!(ends_with(&chars(""), &chars("")));
}

#[test]
fn finding_characters() {
    let v = chars("a_b_c");
    assert_eq!(find_char(&v, '_', 0), 1);
    assert_eq!(find_char(&v, '_', 1), 1);
    assert_eq!(find_char(&v, '_', 2), 3);
    assert_eq!(find_char(&v, '_', 4), 5);
    assert_eq!(find_char(&v, '_', 5), 5);
    assert_eq!(find_char(&v, 'x', 0), 5);
    assert_eq!(find_char(&[], 'x', 0), 0);
}

#[test]
fn comparing() {
    assert!(same_chars(&chars("abc"), &chars("abc")));
    assert!(!same_chars(&chars("abc"), &chars("abd")));
    assert!(!same_chars(&chars("abc"), &chars("ab")));
    assert!(same_chars(&[], &[]));
    assert!(same_text("void", "void"));
    assert!(!same_text("void", "Void"));
    assert!(!same_text("void", "void "));
}

#[test]
fn digits_and_case() {
    assert!(contains_digit(&chars("R8G8")));
    assert!(contains_digit(&chars("0")));
    assert!(!contains_digit(&chars("GRAY")));
    assert!(!contains_digit(&chars("")));
    assert!(!contains_digit(&chars("٣")));
    assert_eq!(to_ascii_lower('A'), 'a');
    assert_eq!(to_ascii_lower('Z'), 'z');
    assert_eq!(to_ascii_lower('m'), 'm');
    assert_eq!(to_ascii_lower('@'), '@');
    assert_eq!(to_ascii_lower('['), '[');
    assert_eq!(to_ascii_lower('5'), '5');
    assert_eq!(to_ascii_lower('É'), 'É');
    for c in ['A', 'Q', 'Z', 'a', '0', '_', 'É', '数'] {
        assert_eq!(to_ascii_lower(c), c.to_ascii_lowercase());
    }
}

#[test]
fn decimal_notation_reads_back() {
    for n in [0u32, 1, 9, 10, 99, 100, 12345, 4294967294, 4294967295] {
        let mut s = String::new();
        push_decimal(&mut s, n as u64);
        assert_eq!(read_u32(&to_chars(&s)), Some(n));
    }
}
