use myrica::backend::ime::{field_text, ime_surrounding_text};

#[test]
fn ime_surrounding_text_is_bounded_at_utf8_boundaries() {
    let text = "日本語".repeat(2000);
    let (surrounding, cursor, anchor) = ime_surrounding_text(&text, 9000, 0);
    assert!(surrounding.len() <= 4096);
    assert!(surrounding.is_char_boundary(cursor as usize));
    assert_eq!(anchor, 0);
    assert_eq!(&surrounding[cursor as usize..cursor as usize + 9], "日本語");
}

#[test]
fn passwords_are_not_shown_to_input_methods() {
    let hidden = Some(String::from("PassWord"));
    assert_eq!(field_text(&hidden, "secret", 3, 3), (String::new(), 0, 0));
    let shown = Some(String::from("text"));
    assert_eq!(field_text(&shown, "secret", 3, 1), (String::from("secret"), 3, 1));
    assert_eq!(field_text(&None, "日本", 3, 9), (String::from("日本"), 3, 6));
}
