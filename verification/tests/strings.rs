use toys::strings::{is_blank, is_not_blank};

#[test]
fn test_is_blank() {
    assert_eq!(is_blank("".to_string()), true);
    assert_eq!(is_blank(" ".to_string()), false);
}

#[test]
fn is_blank_looks_at_characters_only() {
    assert!(is_blank(String::new()));
    assert!(!is_blank("\n".to_string()));
    assert!(!is_blank("满".to_string()));
}

#[test]
fn is_not_blank_is_the_opposite() {
    assert_eq!(is_not_blank(String::from("123")), true);
    assert_eq!(is_not_blank(String::from("")), false);
    assert_eq!(is_not_blank(String::from(" ")), true);
    for text in ["", " ", "a", "广州", "\t\n"] {
        assert_ne!(is_blank(text.to_string()), is_not_blank(text.to_string()));
    }
}
