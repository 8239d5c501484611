use clean_dev_cycle::git::{
    check_diff_names, check_diff_stats, check_diff_text, diff_arguments, output_path, prints_line, sensitive_path, Repository,
};
use clean_dev_cycle::process::Outcome;

fn repo() -> Repository {
    Repository::discover(Ok(b"/repo\n".to_vec())).unwrap()
}

fn done(stdout: &[u8]) -> Result<Outcome, String> {
    Ok(Outcome { success: true, stdout: stdout.to_vec(), stderr: Vec::new() })
}

#[test]
fn the_repository_root_loses_its_line_ending() {
    assert_eq!(repo().root, b"/repo".to_vec());
    assert_eq!(output_path(b"/a b\r\n".to_vec()), b"/a b".to_vec());
    assert_eq!(
        Repository::discover(Err("x".into())).unwrap_err(),
        "execute este comando dentro de um repositório Git com diretório de trabalho."
    );
}

#[test]
fn git_failures_quote_their_error_output() {
    let failed = Outcome { success: false, stdout: Vec::new(), stderr: b"fatal: ruim\n".to_vec() };
    assert_eq!(repo().read(failed).unwrap_err(), "Git: fatal: ruim");
    assert!(repo().ensure_full_history(b"false\n").is_ok());
    assert_eq!(repo().ensure_full_history(b"true\n").unwrap_err(), "esta operação exige histórico completo.");
    assert!(repo().has_changes(b"a\n") && !repo().has_changes(b""));
}

#[test]
fn commits_resolve_from_git_output() {
    assert_eq!(repo().commit_revision(b"main").unwrap(), b"main^{commit}".to_vec());
    assert_eq!(repo().commit_revision(b"-x").unwrap_err(), "referência de commit inválida.");
    assert_eq!(repo().resolve_commit(b"main", Ok(b"abc\n".to_vec())).unwrap(), "abc");
    assert_eq!(repo().resolve_commit(b"x", Err("e".into())).unwrap_err(), "a referência x não resolve para um commit local.");
}

#[test]
fn sensitive_binary_non_utf8_and_submodule_diffs_never_reach_ai() {
    for name in [".env", "config/.env.local", "id_rsa", "k/ID_ED25519", "credentials.json", "a.pem", "b.key", "c.p12", "d.PFX"] {
        assert!(sensitive_path(name), "{name}");
    }
    for name in [".env.example", "a/.env.sample", "x.template", "src/main.rs", "env"] {
        assert!(!sensitive_path(name), "{name}");
    }
    assert_eq!(check_diff_names(b"").unwrap_err(), "não há alterações no intervalo selecionado.");
    assert!(check_diff_names(b"a.rs\0b.rs\0").is_ok());
    assert!(check_diff_names(b"a.rs\0.env\0").unwrap_err().starts_with("arquivo potencialmente sensível na seleção: .env."));
    assert_eq!(check_diff_names(b"\xff\0").unwrap_err(), "há um nome de arquivo que não está em UTF-8.");
    assert_eq!(check_diff_names(b"a\tb\0").unwrap_err(), "há um nome de arquivo com caracteres de controle.");
    assert!(check_diff_stats(b"1\t2\ta.rs\0").is_ok());
    assert!(check_diff_stats(b"1\t2\ta.rs\0-\t-\timg.png\0").is_err());
    assert_eq!(check_diff_text(done(b"+a\n")).unwrap(), "+a\n");
    assert!(check_diff_text(done(b"x\n+Subproject commit abc\n")).is_err());
    assert_eq!(check_diff_text(done(b"\xff")).unwrap_err(), "o diff contém dados que não estão em UTF-8.");
    assert!(check_diff_text(Err("limite".into())).unwrap_err().ends_with("(limite de 128 KiB): limite"));
}

#[test]
fn a_range_diff_checks_names_then_stats_then_text() {
    let r = repo();
    assert_eq!(r.diff_between(Ok(b"a\0".to_vec()), Ok(b"1\t1\ta\0".to_vec()), done(b"+x\n")).unwrap(), "+x\n");
    assert!(r.diff_between(Ok(b".env\0".to_vec()), Err("nunca".into()), done(b"")).unwrap_err().contains(".env"));
    assert_eq!(r.diff_between(Ok(b"a\0".to_vec()), Err("Git: e".into()), done(b"")).unwrap_err(), "Git: e");
}

#[test]
fn diff_arguments_never_ignore_submodules() {
    assert_eq!(
        diff_arguments("a", "b", &["--name-only"]),
        vec!["diff", "--ignore-submodules=none", "--no-relative", "--name-only", "a", "b", "--"]
    );
    assert!(prints_line(b"abc\n", "abc") && !prints_line(b"abc", "abc"));
}

#[test]
fn git_reads_run_with_fixed_limits_and_without_optional_locks() {
    let r = repo();
    let req = r.read_request(vec!["status".into()]);
    assert_eq!(req.dir, r.root);
    assert_eq!(req.args, vec!["status".to_string()]);
    assert!(req.input.is_empty());
    assert_eq!((req.timeout_secs, req.output_limit), (120, 4 * 1024 * 1024));
    assert_eq!(req.env, vec![("GIT_OPTIONAL_LOCKS".to_string(), "0".to_string())]);
    let (names, stats, diff) = r.range_reads("b", "h");
    assert_eq!(names.args, diff_arguments("b", "h", &["--name-only", "--no-renames", "-z"]));
    assert_eq!(stats.args[3], "--numstat");
    assert!(diff.args.contains(&"--unified=3".to_string()) && diff.args.contains(&"--full-index".to_string()));
    assert!(diff.args.contains(&"--no-color".to_string()) && diff.args.contains(&"--no-textconv".to_string()));
    assert_eq!((diff.timeout_secs, diff.output_limit), (30, 128 * 1024));
    assert_eq!(names.timeout_secs, 120);
}

#[test]
fn a_diff_over_128_kib_never_reaches_ai() {
    let big = vec![b'x'; 130 * 1024];
    assert_eq!(
        check_diff_text(done(&big)).unwrap_err(),
        "não foi possível obter o diff completo (limite de 128 KiB): a saída do processo excedeu o limite permitido."
    );
    let exact = vec![b'x'; 128 * 1024];
    assert_eq!(check_diff_text(done(&exact)).unwrap().len(), 128 * 1024);
}
