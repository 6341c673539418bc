use hpcac::formatting::{format_processor_info, log_event_text};
use hpcac::ids::{expand_tilde, generate_id, ID_LENGTH};
use hpcac::json::{parse_json, Json};
use hpcac::text::{
    i64_to_decimal, join, parse_i32, remove_all_char, str_contains, trim, trim_end_matches_char,
    u64_to_decimal,
};

fn s(x: &str) -> String {
    x.to_string()
}

#[test]
fn decimal_of_unsigned_numbers() {
    assert_eq!(u64_to_decimal(0), "0");
    assert_eq!(u64_to_decimal(7), "7");
    assert_eq!(u64_to_decimal(1234), "1234");
    assert_eq!(u64_to_decimal(u64::MAX), "18446744073709551615");
}

#[test]
fn decimal_of_signed_numbers() {
    assert_eq!(i64_to_decimal(0), "0");
    assert_eq!(i64_to_decimal(-42), "-42");
    assert_eq!(i64_to_decimal(96), "96");
    assert_eq!(i64_to_decimal(i64::MIN), "-9223372036854775808");
}

#[test]
fn substring_search() {
    assert!(str_contains("An error: InsufficientInstanceCapacity here", "InsufficientInstanceCapacity"));
    assert!(!str_contains("abc", "abcd"));
    assert!(str_contains("abc", ""));
    assert!(!str_contains("", "a"));
}

#[test]
fn joining_parts() {
    assert_eq!(join(&vec![s("x86_64"), s("arm64")], ","), "x86_64,arm64");
    assert_eq!(join(&vec![s("only")], ", "), "only");
    assert_eq!(join(&vec![], ", "), "");
}

#[test]
fn trimming_and_removing() {
    assert_eq!(trim_end_matches_char("1.5000000000", '0'), "1.5");
    assert_eq!(trim_end_matches_char("000", '0'), "");
    assert_eq!(remove_all_char("\"EPYC\" 7443P", '"'), "EPYC 7443P");
    assert_eq!(trim("  0\n"), "0");
    assert_eq!(trim("\t\n "), "");
}

#[test]
fn parsing_integers() {
    assert_eq!(parse_i32("42"), Some(42));
    assert_eq!(parse_i32("-7"), Some(-7));
    assert_eq!(parse_i32("+3"), Some(3));
    assert_eq!(parse_i32("2147483648"), None);
    assert_eq!(parse_i32("-2147483648"), Some(i32::MIN));
    assert_eq!(parse_i32(""), None);
    assert_eq!(parse_i32("-"), None);
    assert_eq!(parse_i32("1a"), None);
}

#[test]
fn parsing_json_documents() {
    let doc = parse_json("{\"a\": 1, \"b\": \"x\", \"c\": [true, null]}").expect("valid JSON");
    assert_eq!(doc.index("b").as_str().map(|v| v.as_str()), Some("x"));
    assert_eq!(doc.index("a").as_i64(), Some(1));
    assert!(doc.get("missing").is_none());
    assert!(matches!(doc.index("missing"), Json::Null));
    assert_eq!(doc.index("c").as_array().map(|v| v.len()), Some(2));
    assert!(parse_json("{not json").is_none());
}

#[test]
fn json_first_member_of_object() {
    let doc = parse_json("{\"k\": {\"inner\": 5}}").unwrap();
    match doc.first_member() {
        Some(Some(v)) => assert_eq!(v.index("inner").as_i64(), Some(5)),
        _ => panic!("expected a first member"),
    }
    let empty = parse_json("{}").unwrap();
    assert!(matches!(empty.first_member(), Some(None)));
    assert!(parse_json("3").unwrap().first_member().is_none());
}

#[test]
fn processor_description() {
    assert_eq!(format_processor_info(Some(8), s("x86_64"), s("Intel")), "8-Core x86_64 Intel");
    assert_eq!(format_processor_info(None, s("arm64"), s("AWS")), "arm64 AWS");
}

#[test]
fn home_expansion() {
    assert_eq!(expand_tilde("~/.ssh/id_rsa", Some(s("/home/me"))), "/home/me/.ssh/id_rsa");
    assert_eq!(expand_tilde("~/.ssh/id_rsa", None), "~/.ssh/id_rsa");
    assert_eq!(expand_tilde("/etc/hosts", Some(s("/home/me"))), "/etc/hosts");
    assert_eq!(expand_tilde("~user/x", Some(s("/home/me"))), "~user/x");
}

#[test]
fn generated_ids_are_alphanumeric() {
    let a = generate_id();
    let b = generate_id();
    assert_eq!(a.chars().count(), ID_LENGTH);
    assert!(a.chars().all(|c| c.is_ascii_alphanumeric()));
    assert_eq!(b.chars().count(), ID_LENGTH);
    assert!(b.chars().all(|c| c.is_ascii_alphanumeric()));
}

#[test]
fn log_event_is_printed_once() {
    assert_eq!(log_event_text("one\ntwo\n\n"), Some(s("one\ntwo")));
    assert_eq!(log_event_text("a\nb"), Some(s("a\nb")));
    assert_eq!(log_event_text("a\r\nb\r\n"), Some(s("a\r\nb\r")));
    assert_eq!(log_event_text("\n\n"), None);
    assert_eq!(log_event_text(""), None);
}
