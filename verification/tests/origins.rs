use holochain_runtime::origins::AllowedOrigins;

fn origins(list: &[&str]) -> AllowedOrigins {
    AllowedOrigins::Origins(list.iter().map(|o| o.to_string()).collect())
}

#[test]
fn origins_are_compared_as_sets() {
    assert_eq!(AllowedOrigins::Any, AllowedOrigins::Any);
    assert_eq!(origins(&["a", "b"]), origins(&["b", "a", "b"]));
    assert_ne!(origins(&["a", "b"]), origins(&["a"]));
    assert_ne!(origins(&["a"]), origins(&["a", "b"]));
    assert_ne!(origins(&[]), AllowedOrigins::Any);
    assert_eq!(origins(&[]), origins(&[]));
    assert!(origins(&["x"]).same_as(&origins(&["x"]).clone()));
}

#[test]
fn first_origin_of_the_list_is_named() {
    assert_eq!(origins(&["a", "b"]).first_origin(), Some("a".to_string()));
    assert_eq!(origins(&[]).first_origin(), None);
    assert_eq!(AllowedOrigins::Any.first_origin(), None);
}
