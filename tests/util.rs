use entity_cli::util::{ascii_lowercase, name_variants, to_kebab, to_snake};

#[test]
fn kebab_and_snake_split_words() {
    assert_eq!(to_kebab("SignIn"), "sign-in");
    assert_eq!(to_kebab("user_menu"), "user-menu");
    assert_eq!(to_kebab("  Auth  Provider"), "auth-provider");
    assert_eq!(to_kebab("ABC"), "a-b-c");
    assert_eq!(to_snake("UserMenu"), "user_menu");
    assert_eq!(to_snake("auth-provider"), "auth_provider");
    assert_eq!(to_snake(""), "");
    assert_eq!(to_kebab("a--b"), "a-b");
    assert_eq!(to_kebab("trailing-"), "trailing-");
}

#[test]
fn name_variants_in_order() {
    assert_eq!(
        name_variants("AuthProvider"),
        vec![
            "AuthProvider".to_string(),
            "auth-provider".to_string(),
            "auth_provider".to_string(),
            "authprovider".to_string()
        ]
    );
    assert_eq!(ascii_lowercase("MiXeD-9"), "mixed-9");
}
