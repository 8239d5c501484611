use clean_dev_cycle::git::Repository;
use clean_dev_cycle::jj::{DiffBase, Jujutsu, Revision, RevisionFields, Snapshot};
use clean_dev_cycle::process::Outcome;

fn jj() -> Jujutsu {
    Jujutsu::discover(Repository::discover(Ok(b"/r\n".to_vec())).unwrap(), true).unwrap()
}

fn text(s: &str) -> Option<String> {
    Some(s.into())
}

fn fields() -> RevisionFields {
    RevisionFields {
        commit_id: text("c1"),
        change_id: text("k1"),
        description: text("feat: x\n"),
        parents: Some(vec![text("p1")]),
        author_name: text("Ana"),
        author_email: text("ana@example.com"),
        committer_name: text("Ana"),
        committer_email: text(" "),
    }
}

fn revision() -> Revision {
    jj().revision(Some(fields())).unwrap()
}

#[test]
fn workspaces_must_be_colocated() {
    let git = Repository::discover(Ok(b"/r".to_vec())).unwrap();
    assert_eq!(
        Jujutsu::discover(git, false).unwrap_err(),
        "execute em um workspace Jujutsu colocated (jj git init --colocate)."
    );
}

#[test]
fn revisions_are_read_field_by_field() {
    let r = revision();
    assert_eq!((r.id.as_str(), r.change.as_str(), r.parents.clone()), ("c1", "k1", vec!["p1".to_owned()]));
    assert!(r.author_complete && !r.committer_complete);
    assert_eq!(jj().revision(None).unwrap_err(), "a revisão deve selecionar exatamente uma mudança.");
    let mut f = fields();
    f.parents = None;
    assert_eq!(jj().revision(Some(f)).unwrap_err(), "pais ausentes na revisão jj.");
    let mut f = fields();
    f.parents = Some(vec![None]);
    assert_eq!(jj().revision(Some(f)).unwrap_err(), "pai inválido.");
    let mut f = fields();
    f.change_id = None;
    assert_eq!(jj().revision(Some(f)).unwrap_err(), "campo ausente na revisão jj: change_id.");
}

#[test]
fn missing_identity_is_rejected_and_never_reattributed() {
    assert!(jj().ensure_configured_identity("user.name", "Ana\n").is_ok());
    assert!(jj().ensure_configured_identity("user.email", "\n").unwrap_err().starts_with("identidade do Jujutsu incompleta (user.email)."));
    let r = revision();
    assert!(jj().ensure_author(&r).is_ok());
    assert!(jj().ensure_publishable_identity(&r).unwrap_err().contains("jj metaedit -r k1 --force-rewrite"));
}

#[test]
fn jj_conflicts_are_rejected() {
    assert!(jj().ensure_no_conflicts(b"tree t\nparent p\n\nfeat: x\n").is_ok());
    assert_eq!(
        jj().ensure_no_conflicts(b"tree t\njj:trees a b\n\nfeat: x\n").unwrap_err(),
        "a mudança contém conflitos. Resolva-os com jj antes de continuar."
    );
    assert_eq!(jj().ensure_no_conflicts(b"tree t").unwrap_err(), "commit inválido.");
    assert!(jj().ensure_no_conflicts(b"tree t\n\njj:trees no corpo\n").is_ok());
}

#[test]
fn diffs_start_at_the_only_parent_or_the_empty_tree() {
    let mut r = revision();
    assert!(matches!(jj().diff(&r), Ok(DiffBase::Parent(p)) if p == "p1"));
    r.parents = vec!["0000".into()];
    assert!(matches!(jj().diff(&r), Ok(DiffBase::EmptyTree)));
    r.parents = vec![];
    assert!(matches!(jj().diff(&r), Ok(DiffBase::EmptyTree)));
    r.parents = vec!["a".into(), "b".into()];
    assert_eq!(jj().diff(&r).unwrap_err(), "conclua uma mudança linear, sem commit de merge.");
}

#[test]
fn concurrent_edits_abort_and_pinned_commits_use_the_reviewed_operation() {
    let snapshot = Snapshot { operation: "op1".into(), revision: revision() };
    let same = Snapshot { operation: "op1".into(), revision: revision() };
    let moved = Snapshot { operation: "op2".into(), revision: revision() };
    assert!(jj().ensure_unchanged(&snapshot, &same).is_ok());
    assert!(jj().ensure_unchanged(&snapshot, &moved).is_err());
    let args = jj().finish(&snapshot, "feat: x", Ok("Ana".into()), Ok("a@b".into()), Ok(same)).unwrap();
    assert_eq!(args, vec!["--at-operation", "op1", "commit", "--message", "feat: x"]);
    assert!(jj().finish(&snapshot, "feat: x", Ok("Ana".into()), Ok("a@b".into()), Ok(moved)).is_err());
    assert!(jj().finish(&snapshot, "m", Ok(" ".into()), Ok("a@b".into()), Err("nunca".into())).unwrap_err().contains("user.name"));
}

#[test]
fn isolated_operations_come_from_the_error_output() {
    let out = |stderr: &str| Outcome { success: true, stdout: b"x".to_vec(), stderr: stderr.as_bytes().to_vec() };
    let line = "Operation left uncommitted because --no-integrate-operation was requested: ";
    assert_eq!(jj().execute(out(&format!("aviso\n{line}abc123\r\n")), true).unwrap(), "abc123");
    assert!(jj().execute(out(&format!("{line}xyz\n")), true).unwrap_err().starts_with("jj 0.45.1 não retornou a operação isolada: "));
    assert_eq!(jj().execute(out(""), false).unwrap(), "x");
    let failed = Outcome { success: false, stdout: Vec::new(), stderr: b"Error: ruim".to_vec() };
    assert_eq!(jj().execute(failed, false).unwrap_err(), "Jujutsu: Error: ruim");
}

#[test]
fn the_empty_tree_is_read_from_git() {
    assert_eq!(jj().empty_tree(b"4b825dc\n").unwrap(), "4b825dc");
    assert_eq!(jj().empty_tree(&[0xff]).unwrap_err(), "árvore vazia inválida.");
}

#[test]
fn a_revision_is_read_from_the_json_that_jj_prints() {
    let printed = r#"{"commit_id":"c1","change_id":"k1","description":"feat: x\n","parents":["p1"],"author":{"name":"Ana","email":"ana@example.com"},"committer":{"name":"Ana","email":" "}}"#;
    let rev = jj().revision_of(printed).unwrap();
    assert_eq!(rev.id, "c1");
    assert_eq!(rev.parents, vec!["p1".to_string()]);
    assert!(rev.author_complete && !rev.committer_complete);
    assert_eq!(jj().revision_of("{} {}").unwrap_err(), "a revisão deve selecionar exatamente uma mudança.");
    assert_eq!(jj().revision_of(r#"{"commit_id":"c"}"#).unwrap_err(), "pais ausentes na revisão jj.");
    assert_eq!(jj().revision_of(r#"{"parents":[1]}"#).unwrap_err(), "pai inválido.");
    assert_eq!(jj().revision_of(r#"{"parents":[]}"#).unwrap_err(), "campo ausente na revisão jj: commit_id.");
}
