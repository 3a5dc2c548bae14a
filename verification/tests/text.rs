use openai_rst::text::{copy_opt_text, copy_opt_texts, copy_texts, join};

#[test]
fn join_appends() {
    assert_eq!(join("Bearer ", "sk-1"), "Bearer sk-1");
    assert_eq!(join("", "b"), "b");
    assert_eq!(join("a", ""), "a");
    assert_eq!(join("", ""), "");
    assert_eq!(join("gr\u{fc}", "\u{df}e"), "gr\u{fc}\u{df}e");
}

#[test]
fn copies_are_equal() {
    assert_eq!(copy_opt_text(&None), None);
    assert_eq!(copy_opt_text(&Some("a".to_string())), Some("a".to_string()));
    let list = vec!["a".to_string(), String::new(), "c".to_string()];
    assert_eq!(copy_texts(&list), list);
    assert_eq!(copy_texts(&Vec::new()), Vec::<String>::new());
    assert_eq!(copy_opt_texts(&Some(list.clone())), Some(list));
    assert_eq!(copy_opt_texts(&None), None);
}
