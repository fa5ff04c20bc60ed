use nix_scaffold::language::{supported_languages, user_input_to_enum, Language};

#[test]
fn catalog_lists_languages_in_order() {
    assert_eq!(
        supported_languages(),
        vec![Language::Rust, Language::Dotnet, Language::Java, Language::NodeJS, Language::Go]
    );
}

#[test]
fn exact_names_resolve() {
    assert_eq!(user_input_to_enum("rust"), Some(Language::Rust));
    assert_eq!(user_input_to_enum("dotnet"), Some(Language::Dotnet));
    assert_eq!(user_input_to_enum("java"), Some(Language::Java));
    assert_eq!(user_input_to_enum("nodejs"), Some(Language::NodeJS));
    assert_eq!(user_input_to_enum("go"), Some(Language::Go));
}

#[test]
fn listed_names_resolve_to_their_language() {
    for language in supported_languages() {
        assert_eq!(user_input_to_enum(&format!("{:?}", language)), Some(language));
    }
}

#[test]
fn lookup_ignores_case_and_surrounding_space() {
    assert_eq!(user_input_to_enum("Rust"), Some(Language::Rust));
    assert_eq!(user_input_to_enum("rust"), Some(Language::Rust));
    assert_eq!(user_input_to_enum(" rust \n"), Some(Language::Rust));
    assert_eq!(user_input_to_enum("\tNodeJS\r\n"), Some(Language::NodeJS));
    assert_eq!(user_input_to_enum("GO"), Some(Language::Go));
    assert_eq!(user_input_to_enum("\u{a0}Java\u{3000}"), Some(Language::Java));
}

#[test]
fn lookup_rejects_other_text() {
    assert_eq!(user_input_to_enum("rustlang"), None);
    assert_eq!(user_input_to_enum("ru st"), None);
    assert_eq!(user_input_to_enum(""), None);
    assert_eq!(user_input_to_enum("   \n"), None);
    assert_eq!(user_input_to_enum("python"), None);
}
