use clean_dev_cycle::commit::{confirmation_mode, review};

#[test]
fn cancellation_and_eof_do_not_confirm_a_message() {
    for input in ["n\n", ""] {
        assert!(review("feat: original".into(), input, false).0.unwrap().is_none());
    }
}

#[test]
fn edited_message_is_validated_and_requires_confirmation() {
    let (result, output) = review("feat: original".into(), "e\ninvalid\n.\ne\nfix: corrigir\n.\ns\n", false);
    assert_eq!(result.unwrap().as_deref(), Some("fix: corrigir"));
    assert!(output.contains("Mensagem inválida"));
}

#[test]
fn a_cancelled_review_confirms_nothing_even_after_a_confirmation() {
    assert!(review("feat: original".into(), "s\n", true).0.unwrap().is_none());
    assert!(review("feat: original".into(), "e\nfix: outra\n.\ns\n", true).0.unwrap().is_none());
}

#[test]
fn confirmation_answers_keep_the_proposed_message() {
    for answer in ["\n", "s\n", "SIM\n", "  Sim \r\n"] {
        assert_eq!(review("feat: original".into(), answer, false).0.unwrap().as_deref(), Some("feat: original"));
    }
    for answer in ["n\n", "Não\n", "nao\n"] {
        assert!(review("feat: original".into(), answer, false).0.unwrap().is_none());
    }
}

#[test]
fn unknown_answers_ask_again_and_the_prompt_is_written_first() {
    let (result, output) = review("feat: original".into(), "x\ns\n", false);
    assert_eq!(result.unwrap().as_deref(), Some("feat: original"));
    assert!(output.starts_with("[Enter/s] confirmar, [e] editar, [n] cancelar: "));
    assert!(output.contains("Escolha s, e ou n."));
}

#[test]
fn an_edit_that_never_ends_confirms_nothing() {
    assert!(review("feat: original".into(), "e\nfix: corrigir\n", false).0.unwrap().is_none());
}

#[test]
fn an_oversized_edit_is_refused() {
    let long = format!("e\n{}\n", "a".repeat(17 * 1024));
    assert_eq!(review("feat: original".into(), &long, false).0.unwrap_err(), "a mensagem editada excede 16 KiB.");
}

#[test]
fn confirmation_needs_a_terminal_unless_previewing_or_confirmed_up_front() {
    assert!(confirmation_mode(false, false, true).is_ok());
    assert!(confirmation_mode(true, false, false).is_ok());
    assert!(confirmation_mode(false, true, false).is_ok());
    assert_eq!(
        confirmation_mode(false, false, false).unwrap_err(),
        "a confirmação exige um terminal. Use --dry-run ou --yes."
    );
}
