use sonosremote::text::{decimal_of, find_from, parse_u8, replace_all};

fn chars(s: &str) -> Vec<char> {
    s.chars().collect()
}

#[test]
fn replacement_is_left_to_right_and_non_overlapping() {
    assert_eq!(replace_all(&chars("aaaa"), &chars("aa"), &chars("b")), chars("bb"));
    assert_eq!(replace_all(&chars("aaa"), &chars("aa"), &chars("b")), chars("ba"));
    assert_eq!(replace_all(&chars("<<s:s:"), &chars("<s:"), &chars("<")), chars("<<s:"));
    assert_eq!(replace_all(&chars(""), &chars("x"), &chars("y")), chars(""));
    assert_eq!(replace_all(&chars("héllo"), &chars("é"), &chars("e")), chars("hello"));
}

#[test]
fn search_from_a_position() {
    assert_eq!(find_from(&chars("abcabc"), &chars("bc"), 0), Some(1));
    assert_eq!(find_from(&chars("abcabc"), &chars("bc"), 2), Some(4));
    assert_eq!(find_from(&chars("abcabc"), &chars("x"), 0), None);
}

#[test]
fn decimals() {
    assert_eq!(decimal_of(0), chars("0"));
    assert_eq!(decimal_of(1400), chars("1400"));
    assert_eq!(parse_u8(&chars("255")), Some(255));
    assert_eq!(parse_u8(&chars("256")), None);
    assert_eq!(parse_u8(&chars("")), None);
    assert_eq!(parse_u8(&chars("+")), None);
    assert_eq!(parse_u8(&chars("007")), Some(7));
}
