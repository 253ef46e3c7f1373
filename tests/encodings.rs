use ibm_watson::encoding::{push_decimal, push_percent_encoded};
use ibm_watson::http::build_url;

#[test]
fn percent_encoding() {
    let mut s = String::from("x=");
    push_percent_encoded(&mut s, "a b/\u{fc}~-._Z9?&%");
    assert_eq!(s, "x=a%20b%2F%C3%BC~-._Z9%3F%26%25");
    let mut e = String::new();
    push_percent_encoded(&mut e, "");
    assert_eq!(e, "");
}

#[test]
fn decimals() {
    for (n, expected) in [(0u64, "0"), (7, "7"), (10, "10"), (22050, "22050"), (u64::MAX, "18446744073709551615")] {
        let mut s = String::new();
        push_decimal(&mut s, n);
        assert_eq!(s, expected);
    }
}

#[test]
fn urls() {
    assert_eq!(build_url("https://h", &vec![], &vec![]), "https://h");
    assert_eq!(build_url("https://h/", &vec!["a b", "c"], &vec![]), "https://h/a%20b/c");
    assert_eq!(
        build_url("https://h", &vec!["p"], &vec![("k 1", "v=1"), ("k2", "")]),
        "https://h/p?k%201=v%3D1&k2="
    );
    assert_eq!(build_url("", &vec!["v1"], &vec![]), "/v1");
}
