use service_network::text::{chars_of, decimal_string, join_strings, split_str, str_lt, trim_str};

#[test]
fn decimal_formats_numbers() {
    assert_eq!(decimal_string(0), "0");
    assert_eq!(decimal_string(7), "7");
    assert_eq!(decimal_string(10), "10");
    assert_eq!(decimal_string(1919), "1919");
    assert_eq!(decimal_string(u64::MAX), u64::MAX.to_string());
}

#[test]
fn split_matches_str_split() {
    for (s, c) in [("0.0.0.0:1982", ':'), ("a,,b,", ','), ("", ','), ("host.example.org", '.'), ("nocolon", ':')] {
        let expected: Vec<String> = s.split(c).map(|p| p.to_string()).collect();
        assert_eq!(split_str(s, c), expected);
    }
}

#[test]
fn join_matches_slice_join() {
    let parts = vec!["0.0.0.0:1981".to_string(), "10.0.0.2:1981".to_string()];
    assert_eq!(join_strings(&parts, ","), "0.0.0.0:1981,10.0.0.2:1981");
    assert_eq!(join_strings(&vec![], ","), "");
    assert_eq!(join_strings(&vec!["one".to_string()], ","), "one");
}

#[test]
fn split_undoes_join() {
    let parts = vec!["a:1".to_string(), "".to_string(), "b:2".to_string()];
    let joined = join_strings(&parts, ",");
    assert_eq!(split_str(&joined, ','), parts);
}

#[test]
fn trim_matches_str_trim() {
    for s in [" 10.0.0.1:1981 ", "\t\nx\u{3000}", "", "   ", "a b", "\u{a0}y\u{2028}"] {
        assert_eq!(trim_str(s), s.trim());
    }
}

#[test]
fn lexicographic_order_matches_string_order() {
    let names = ["", "a", "ab", "b", "Z", "é", "alpha", "alp"];
    for a in names {
        for b in names {
            assert_eq!(str_lt(a, b), a < b, "{a:?} < {b:?}");
        }
    }
}

#[test]
fn chars_of_lists_characters() {
    assert_eq!(chars_of("hé!"), vec!['h', 'é', '!']);
}
