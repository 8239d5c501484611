use clean_dev_cycle::process::{diagnostic, interruption, printable_excerpt};

#[test]
fn diagnostics_drop_control_characters_and_keep_two_thousand() {
    assert_eq!(diagnostic(b"  erro\x1b[31m\n\tlinha \xff "), "erro[31m\n\tlinha \u{fffd}");
    assert_eq!(printable_excerpt(&"a".repeat(3000)).chars().count(), 2000);
}

#[test]
fn cancellation_comes_before_the_time_limit_and_the_output_limit() {
    assert_eq!(interruption(true, true, true).unwrap(), "operação cancelada.");
    assert_eq!(interruption(false, true, true).unwrap(), "tempo limite excedido; nenhum commit foi solicitado ao Git.");
    assert_eq!(interruption(false, false, true).unwrap(), "a saída do processo excedeu o limite permitido.");
    assert!(interruption(false, false, false).is_none());
}
