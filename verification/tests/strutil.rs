use twbm_installer::strutil::{contains_string, str_contains, str_eq, trim_str};

#[test]
fn str_eq_basic() {
    assert!(str_eq("", ""));
    assert!(str_eq("abc", "abc"));
    assert!(!str_eq("abc", "abd"));
    assert!(!str_eq("abc", "ab"));
    assert!(!str_eq("", "a"));
}

#[test]
fn str_contains_basic() {
    assert!(str_contains("Windows 10 Pro", "Windows 10"));
    assert!(str_contains("abc", ""));
    assert!(str_contains("abc", "abc"));
    assert!(str_contains("abcabd", "abd"));
    assert!(!str_contains("Windows 8", "Windows 10"));
    assert!(!str_contains("", "a"));
    assert!(!str_contains("ab", "abc"));
}

#[test]
fn trim_removes_surrounding_whitespace_only() {
    assert_eq!(trim_str(""), "");
    assert_eq!(trim_str("   "), "");
    assert_eq!(trim_str("x"), "x");
    assert_eq!(trim_str("  x y  "), "x y");
    assert_eq!(trim_str("\r\n3.2.1\t"), "3.2.1");
}

#[test]
fn contains_string_matches_whole_elements() {
    let names = vec![String::from("readme.txt"), String::from("app.exe")];
    assert!(contains_string(&names, "app.exe"));
    assert!(contains_string(&names, "readme.txt"));
    assert!(!contains_string(&names, "app"));
    assert!(!contains_string(&names, "missing"));
    let empty: Vec<String> = Vec::new();
    assert!(!contains_string(&empty, "x"));
}
