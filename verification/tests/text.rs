use home_projects::text::{decimal_string, split_string};

#[test]
fn decimal_rendering() {
    assert_eq!(decimal_string(0), "0");
    assert_eq!(decimal_string(7), "7");
    assert_eq!(decimal_string(10), "10");
    assert_eq!(decimal_string(1234567890), "1234567890");
    assert_eq!(decimal_string(usize::MAX), usize::MAX.to_string());
}

#[test]
fn split_matches_str_split() {
    for s in ["", ".", "a", "a.b", "a..b", ".a.", "user.friends[0].name", "é.ü"] {
        let expected: Vec<String> = s.split('.').map(|x| x.to_string()).collect();
        assert_eq!(split_string(s, '.'), expected);
    }
}

#[test]
fn split_then_join_gives_back_the_text() {
    let s = "a.bc..d.";
    assert_eq!(split_string(s, '.').join("."), s);
}
