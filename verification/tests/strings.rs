use farm_resolve::strings::{
    ends_with, starts_with, str_equals, trim_end_matches_char, trim_matches_char,
    trim_start_matches_char, trim_start_matches_str,
};

#[test]
fn prefixes_and_suffixes() {
    assert!(starts_with("./a", "./"));
    assert!(starts_with("abc", ""));
    assert!(!starts_with("a", "ab"));
    assert!(ends_with("alias$", "$"));
    assert!(!ends_with("alias", "$"));
    assert!(ends_with("é$", "$"));
    assert!(str_equals("über", "über"));
    assert!(!str_equals("a", "ab"));
}

#[test]
fn trimming_matches_std() {
    let samples = ["", "$", "$$a$$", "a$b$", "\"x\"", "\"\"\"", "xé\"", "plain"];
    for s in samples.iter() {
        assert_eq!(trim_end_matches_char(s, '$'), s.trim_end_matches('$'));
        assert_eq!(trim_start_matches_char(s, '$'), s.trim_start_matches('$'));
        assert_eq!(trim_matches_char(s, '"'), s.trim_matches('"'));
    }
    let pats = ["", "@", "ab", "é"];
    let srcs = ["@@x", "ababc", "abab", "éé/x", "x"];
    for p in pats.iter() {
        for s in srcs.iter() {
            assert_eq!(trim_start_matches_str(s, p), s.trim_start_matches(p), "{} {}", s, p);
        }
    }
}
