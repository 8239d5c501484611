use clean_dev_cycle::cli::{parse, Action, Argument, CheckCommitInput, HELP};

fn args(words: &[&str]) -> Vec<Argument> {
    words.iter().map(|w| Argument::Text(w.to_string())).collect()
}

#[test]
fn help_and_version_need_no_repository() {
    for words in [vec!["--help"], vec!["-h"], vec![]] {
        assert!(matches!(parse(args(&words)), Ok(Action::Help(h)) if h == HELP));
    }
    assert!(matches!(parse(args(&["--version"])), Ok(Action::Version)));
    for command in ["commit", "submit", "changelog", "check-commit"] {
        match parse(args(&[command, "--help"])) {
            Ok(Action::Help(h)) => assert!(!h.is_empty() && h != HELP),
            other => panic!("{other:?}"),
        }
    }
}

#[test]
fn removed_interfaces_and_ambiguous_arguments_are_refused() {
    for words in [
        vec!["check-ci", "--event-name", "pull_request", "--event-file", "event.json"],
        vec!["__verify-commit"],
        vec!["changelog", "--base", "main", "--pr", "42"],
        vec!["changelog", "--from", "main"],
        vec!["changelog", "--from", "a", "--to", "b", "--check"],
        vec!["commit", "--yes", "--yes"],
        vec!["commit", "--timeout", "0"],
        vec!["submit", "--revision"],
        vec!["submit", "--revision", "a", "--revision", "b"],
        vec!["check-commit", "--message-file", "x", "--from", "main", "--to", "HEAD"],
        vec!["changelog", "--from", "a", "--to", "b", "--entry-file", "x", "--codex", "codex"],
    ] {
        assert!(parse(args(&words)).is_err(), "{words:?}");
    }
}

#[test]
fn flows_get_their_options() {
    match parse(args(&["commit", "--dry-run", "--timeout", "30", "--model", "m"])) {
        Ok(Action::Commit(o)) => {
            assert!(o.dry_run && !o.yes);
            assert_eq!(o.timeout_seconds, 30);
            assert!(matches!(o.model, Some(Argument::Text(m)) if m == "m"));
        },
        other => panic!("{other:?}"),
    }
    match parse(args(&["check-commit", "--from", "a", "--to", "b"])) {
        Ok(Action::CheckCommit(o)) => assert!(matches!(o.input, CheckCommitInput::Range { .. })),
        other => panic!("{other:?}"),
    }
    assert!(matches!(parse(args(&["submit"])), Ok(Action::Submit(Argument::Text(r))) if r == "@-"));
    assert_eq!(parse(args(&["deploy"])).unwrap_err(), "comando não reconhecido: deploy.");
}

#[test]
fn a_message_file_never_goes_with_a_range_bound() {
    for words in [
        vec!["check-commit", "--message-file", "x", "--to", "HEAD"],
        vec!["check-commit", "--message-file", "x", "--from", "main"],
        vec!["check-commit", "--to", "HEAD", "--message-file", "x"],
    ] {
        assert!(parse(args(&words)).is_err(), "{words:?}");
    }
}
