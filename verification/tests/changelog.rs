use clean_dev_cycle::changelog::{note_diff, range_start, refs_unchanged, validate};

#[test]
fn notes_need_a_title_and_a_synthesis() {
    assert_eq!(validate(" ### Entrega\r\n\r\nResultado.\r\n").unwrap(), "### Entrega\n\nResultado.");
    assert!(validate("Entrega\n\nResultado.").is_err());
    assert!(validate("### Entrega\n\n<b>x</b>").is_err());
    assert!(validate("### Entrega\n\n# outro título").is_err());
    assert!(validate(&format!("### {}\n\nx", "a".repeat(180))).is_err());
}

#[test]
fn empty_or_reversed_ranges_and_moving_refs_are_rejected() {
    assert!(range_start(b"a\n", "a").is_ok());
    assert_eq!(range_start(b"b\n", "a").unwrap_err(), "--from deve ser ancestral de --to.");
    assert!(refs_unchanged(Ok("a".into()), Ok("b".into()), "a", "b").is_ok());
    assert_eq!(
        refs_unchanged(Ok("a".into()), Ok("c".into()), "a", "b").unwrap_err(),
        "uma referência mudou durante a revisão. Execute novamente."
    );
    assert_eq!(note_diff(Err("e".into())).unwrap_err(), "e\nUse --entry-file para fornecer a síntese sem IA.");
}

#[test]
fn ranges_without_changes_have_no_note() {
    assert!(clean_dev_cycle::changelog::require_changes(b"a\n").is_ok());
    assert_eq!(
        clean_dev_cycle::changelog::require_changes(b"").unwrap_err(),
        "não há alterações no intervalo selecionado."
    );
}
