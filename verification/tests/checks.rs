use clean_dev_cycle::checks::{commands, commands_of, configuration, ensure_copy_unchanged};


#[test]
fn configuration_requires_nonempty_commands_and_string_arguments() {
    for invalid in [
        "",
        "[checks]",
        "[checks]\ncommands=[]",
        "[checks]\ncommands=['cargo test']",
        "[checks]\ncommands=[[]]",
        "[checks]\ncommands=[['']]",
        "[checks]\ncommands=[['cargo', 1]]",
    ] {
        assert!(commands_of(invalid).is_err(), "{invalid}");
    }
    assert_eq!(
        commands_of("[checks]\ncommands=[['tool', 'two words', '', '$HOME']]").unwrap(),
        vec![vec!["tool", "two words", "", "$HOME"]]
    );
}

#[test]
fn check_configuration_errors_say_what_is_wrong() {
    assert!(commands_of("[checks").unwrap_err().starts_with("clean-dev-cycle.toml inválido: "));
    assert_eq!(
        commands_of("").unwrap_err(),
        "clean-dev-cycle.toml deve definir checks.commands como uma lista não vazia."
    );
    assert_eq!(
        commands_of("[checks]\ncommands=['x']").unwrap_err(),
        "cada check deve ser uma lista com programa e argumentos."
    );
    assert_eq!(
        commands_of("[checks]\ncommands=[['a', 1]]").unwrap_err(),
        "programa e argumentos dos checks devem ser textos sem NUL."
    );
    assert_eq!(
        commands(Ok(Some(vec![Some(vec![Some("a\0b".into())])]))).unwrap_err(),
        "programa e argumentos dos checks devem ser textos sem NUL."
    );
    assert_eq!(commands_of("[checks]\ncommands=[[' ']]").unwrap_err(), "o programa de um check não pode estar vazio.");
    assert_eq!(commands_of("[checks]\ncommands=[['a'], ['b', 'c']]").unwrap(), vec![vec!["a"], vec!["b", "c"]]);
}

#[test]
fn the_configuration_file_must_exist_in_utf8() {
    assert_eq!(configuration(Ok(b"x".to_vec())).unwrap(), "x");
    assert_eq!(configuration(Ok(vec![0xff])).unwrap_err(), "clean-dev-cycle.toml deve estar em UTF-8.");
    assert_eq!(
        configuration(Err("Git: ausente".into())).unwrap_err(),
        "a mudança selecionada precisa conter clean-dev-cycle.toml. Git: ausente"
    );
}

#[test]
fn checks_may_not_rewrite_the_copy() {
    assert!(ensure_copy_unchanged(Ok("abc".into()), "abc", Ok(Vec::new())).is_ok());
    assert!(ensure_copy_unchanged(Ok("def".into()), "abc", Ok(Vec::new())).is_err());
    assert!(ensure_copy_unchanged(Ok("abc".into()), "abc", Ok(b" M a\n".to_vec())).is_err());
    assert_eq!(ensure_copy_unchanged(Err("e".into()), "abc", Ok(Vec::new())).unwrap_err(), "e");
}
