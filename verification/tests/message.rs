use clean_dev_cycle::message::validate;

#[test]
fn accepts_breaking_changes_and_git_trailers() {
    for text in [
        "feat(cli): permitir revisão da mensagem",
        "feat!: remover formato antigo\n\nBREAKING CHANGE: usar o novo formato.\n\nRefs: #12",
        "fix: corrigir seleção\n\nSigned-off-by: Pessoa <pessoa@example.com>",
    ] {
        assert_eq!(validate(text).unwrap(), text);
    }
}

#[test]
fn rejects_unstructured_and_unbounded_messages() {
    for text in [
        "",
        "mensagem solta",
        "feat: ",
        "wip: continuar amanhã",
        "```\nfeat: título\n```",
        "feat: título\u{1b}",
        "feat: título\ncorpo sem separação",
    ] {
        assert!(validate(text).is_err(), "{text:?}");
    }
    assert!(validate(&format!("feat: {}", "á".repeat(100))).is_err());
}

#[test]
fn a_valid_message_is_normalized_once_and_then_kept() {
    let first = validate("  fix: corrigir\r\n\r\ncorpo\r\n ").unwrap();
    assert_eq!(first, "fix: corrigir\n\ncorpo");
    assert_eq!(validate(&first).unwrap(), first);
}

#[test]
fn titles_of_exactly_one_hundred_characters_pass() {
    let title = format!("feat: {}", "a".repeat(94));
    assert_eq!(title.chars().count(), 100);
    assert!(validate(&title).is_ok());
    assert!(validate(&format!("{title}a")).is_err());
}
