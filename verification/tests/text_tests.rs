use pinreq::text::{join2, join3, str_eq};

#[test]
fn str_eq_compares_all_characters() {
    assert!(str_eq("", ""));
    assert!(str_eq("m.text", "m.text"));
    assert!(!str_eq("m.text", "m.texT"));
    assert!(!str_eq("m.text", "m.tex"));
    assert!(!str_eq("m.tex", "m.text"));
    assert!(!str_eq("", "a"));
    assert!(str_eq("r\u{e9}sum\u{e9}", "r\u{e9}sum\u{e9}"));
    assert!(!str_eq("r\u{e9}sum\u{e9}", "resume"));
}

#[test]
fn join2_keeps_both_parts_in_order() {
    assert_eq!(join2("Room ", "!abc"), "Room !abc");
    assert_eq!(join2("", "b"), "b");
    assert_eq!(join2("a", ""), "a");
    assert_eq!(join2("", ""), "");
}

#[test]
fn join3_keeps_all_parts_in_order() {
    assert_eq!(join3("Room ", "!abc", " is not joined"), "Room !abc is not joined");
    assert_eq!(join3("", "", ""), "");
    assert_eq!(join3("a", "", "c"), "ac");
}
