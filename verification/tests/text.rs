use cilux::error::IntErrorKind;
use cilux::json::parse_json_file;
use cilux::text::{chars_of, parse_usize, push_decimal, split_lines, str_eq, trim_leading_copies};

fn lines_of(s: &str) -> Vec<String> {
    split_lines(&chars_of(s)).into_iter().map(|l| l.into_iter().collect()).collect()
}

#[test]
fn lines_split_like_str_lines() {
    for text in ["", "a", "a\n", "a\nb", "a\r\nb\r\n", "\n\n", "a\r", "x\ry\n", "\r\n"] {
        assert_eq!(lines_of(text), text.lines().map(String::from).collect::<Vec<_>>(), "{text:?}");
    }
}

#[test]
fn usize_parse_like_std() {
    for text in ["0", "42", "+7", "", "+", "-", "-1", "12a", "18446744073709551615", "18446744073709551616", "99999999999999999999x"] {
        let ours = parse_usize(&chars_of(text));
        let std = text.parse::<usize>();
        match (ours, std) {
            (Ok(a), Ok(b)) => assert_eq!(a, b),
            (Err(kind), Err(e)) => {
                let expected = match e.kind() {
                    std::num::IntErrorKind::Empty => IntErrorKind::Empty,
                    std::num::IntErrorKind::InvalidDigit => IntErrorKind::InvalidDigit,
                    std::num::IntErrorKind::PosOverflow => IntErrorKind::PosOverflow,
                    other => panic!("unexpected {other:?}"),
                };
                assert_eq!(kind, expected, "{text:?}");
                assert_eq!(kind.as_str(), e.to_string());
            },
            (a, b) => panic!("{text:?}: {a:?} vs {b:?}"),
        }
    }
}

#[test]
fn helpers() {
    assert!(str_eq("proc_iomem", "proc_iomem"));
    assert!(!str_eq("proc_iomem", "proc_ioports"));
    let trimmed: String = trim_leading_copies(&chars_of("ababc"), &chars_of("ab")).into_iter().collect();
    assert_eq!(trimmed, "c");
    let mut s = String::from("n=");
    push_decimal(&mut s, 4096);
    assert_eq!(s, "n=4096");
    let mut z = String::new();
    push_decimal(&mut z, 0);
    assert_eq!(z, "0");
}

#[test]
fn json_files_parse_or_name_the_file() {
    assert!(parse_json_file("/d/caps.json", "{\"a\": 1}").is_ok());
    let error = parse_json_file("/d/state.json", "{").unwrap_err();
    assert_eq!(error.message(), "parse /d/state.json");
    assert!(error.message_with_causes().starts_with("parse /d/state.json: "));
}
