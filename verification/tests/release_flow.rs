use clean_dev_cycle::release::{fingerprint_data, Manifest, Prepared};
use clean_dev_cycle::release_check::{CheckAction, CheckEvent, ReleaseCheck};
use clean_dev_cycle::release_prepare::{revised_manifest, NotesRevision, PrepareAction, PrepareEvent, ReleasePrepare};

const START: &str = "<!-- clean-dev-cycle:release:start -->\n";
const END: &str = "<!-- clean-dev-cycle:release:end -->\n\n";
const CONFIG: &str = "[release]\nenabled = true\n";
const NOTES: &str = "### Entrega\n\nResultado.";

fn prepared_log() -> String {
    format!("# Changelog\n\n{START}## 0.1.0\n\n{NOTES}\n{END}")
}

fn first_manifest() -> Manifest {
    Manifest {
        schema: 1,
        version: "0.1.0".into(),
        parent: "p1".into(),
        base: None,
        base_tag: None,
        fingerprint: "fp".into(),
        message: "feat: adicionar recurso".into(),
        notes_hash: "nh".into(),
    }
}

fn check_answer(action: &CheckAction) -> CheckEvent {
    match action {
        CheckAction::ReadFile(rev, path) => CheckEvent::File(Ok(match (rev.as_str(), path.as_str()) {
            ("r1", "clean-dev-cycle.toml") => Some(CONFIG.into()),
            ("r1", ".clean-dev-cycle-release.json") => Some("MANIFEST".into()),
            ("r1", "CHANGELOG.md") => Some(prepared_log()),
            _ => None,
        })),
        CheckAction::ReadText(args) if args[0] == "rev-list" => CheckEvent::Text(Ok("r1 p1\n".into())),
        CheckAction::ReadText(_) => CheckEvent::Text(Ok("feat: adicionar recurso\n".into())),
        CheckAction::ParseManifest(_) => CheckEvent::Manifest(Ok(first_manifest())),
        CheckAction::Normalized(_) => CheckEvent::Text(Ok("tree".into())),
        CheckAction::Hash(text) if text.as_str() == NOTES => CheckEvent::Text(Ok("nh".into())),
        CheckAction::Hash(text) => {
            assert_eq!(*text, fingerprint_data("tree", None, None));
            CheckEvent::Text(Ok("fp".into()))
        }
        other => panic!("ação inesperada: {other:?}"),
    }
}

#[test]
fn a_release_commit_passes_the_check_with_its_reviewed_notes() {
    let (mut check, mut action) = ReleaseCheck::start("r1".into());
    for _ in 0..20 {
        if let CheckAction::Finish(result) = action {
            let (m, notes) = result.unwrap().unwrap();
            assert_eq!(m.version, "0.1.0");
            assert_eq!(notes, NOTES);
            return;
        }
        let event = check_answer(&action);
        assert!(check.accepts(&event));
        action = check.advance(event);
    }
    panic!("a verificação não terminou");
}

#[test]
fn the_check_finds_no_release_without_configuration_or_for_internal_changes() {
    let (mut check, action) = ReleaseCheck::start("r1".into());
    assert!(matches!(action, CheckAction::ReadFile(ref r, ref p) if r == "r1" && p == "clean-dev-cycle.toml"));
    match check.advance(CheckEvent::File(Ok(None))) {
        CheckAction::Finish(Ok(None)) => {}
        other => panic!("{other:?}"),
    }
    let (mut check, _) = ReleaseCheck::start("r1".into());
    check.advance(CheckEvent::File(Ok(Some(CONFIG.into()))));
    check.advance(CheckEvent::Text(Ok("r1 p1\n".into())));
    check.advance(CheckEvent::Text(Ok("chore: limpar\n".into())));
    check.advance(CheckEvent::File(Ok(None)));
    check.advance(CheckEvent::File(Ok(None)));
    check.advance(CheckEvent::File(Ok(None)));
    match check.advance(CheckEvent::File(Ok(None))) {
        CheckAction::Finish(Ok(None)) => {}
        other => panic!("{other:?}"),
    }
}

#[test]
fn the_check_refuses_notes_changed_after_review() {
    let (mut check, mut action) = ReleaseCheck::start("r1".into());
    for _ in 0..20 {
        let event = match &action {
            CheckAction::Hash(text) if text.as_str() == NOTES => CheckEvent::Text(Ok("outro".into())),
            CheckAction::Finish(result) => {
                assert!(result.as_ref().unwrap_err().starts_with("notas alteradas após a revisão."));
                return;
            }
            other => check_answer(other),
        };
        action = check.advance(event);
    }
    panic!("a verificação não terminou");
}

fn prepare_answer(action: &PrepareAction) -> PrepareEvent {
    match action {
        PrepareAction::ReadFile(rev, path) => PrepareEvent::File(Ok(match (rev.as_str(), path.as_str()) {
            ("r1", "clean-dev-cycle.toml") => Some(CONFIG.into()),
            _ => None,
        })),
        PrepareAction::ReadBytes(_) => PrepareEvent::Bytes(Ok(b"false\n".to_vec())),
        PrepareAction::ReadText(_) => PrepareEvent::Text(Ok("r1 p1\n".into())),
        PrepareAction::LatestPublished(parent) => {
            assert_eq!(parent, "p1");
            PrepareEvent::Published(Ok(None))
        }
        PrepareAction::Normalized(_) => PrepareEvent::Text(Ok("tree".into())),
        PrepareAction::Hash(text) if text.as_str() == NOTES => PrepareEvent::Text(Ok("nh".into())),
        PrepareAction::Hash(_) => PrepareEvent::Text(Ok("fp".into())),
        PrepareAction::EmptyTree => PrepareEvent::Text(Ok("empty".into())),
        PrepareAction::Diff(from, to) => {
            assert_eq!((from.as_str(), to.as_str()), ("empty", "tree"));
            PrepareEvent::Text(Ok("+x\n".into()))
        }
        PrepareAction::Generate(diff) => {
            assert_eq!(diff, "+x\n");
            PrepareEvent::Text(Ok(NOTES.into()))
        }
        PrepareAction::WriteTree(rev, log, m) => {
            assert_eq!(rev, "r1");
            assert_eq!(*log, prepared_log());
            assert_eq!((m.schema, m.version.as_str(), m.parent.as_str()), (1, "0.1.0", "p1"));
            assert_eq!((m.fingerprint.as_str(), m.notes_hash.as_str()), ("fp", "nh"));
            assert_eq!(m.message, "feat: adicionar recurso");
            assert!(m.base.is_none() && m.base_tag.is_none());
            PrepareEvent::Text(Ok("t2".into()))
        }
        other => panic!("ação inesperada: {other:?}"),
    }
}

#[test]
fn a_first_release_is_prepared_with_generated_notes() {
    let (mut p, mut action) = ReleasePrepare::start("r1".into(), "feat: adicionar recurso".into(), None);
    for _ in 0..30 {
        if let PrepareAction::Finish(result) = action {
            let prepared = result.unwrap().unwrap();
            assert_eq!((prepared.tree.as_str(), prepared.version.as_str(), prepared.notes.as_str()), ("t2", "0.1.0", NOTES));
            return;
        }
        let event = prepare_answer(&action);
        assert!(p.accepts(&event));
        action = p.advance(event);
    }
    panic!("a preparação não terminou");
}

#[test]
fn internal_changes_do_not_release_and_manual_eligible_commit_requires_preparation() {
    let (mut p, _) = ReleasePrepare::start("r1".into(), "docs: orientar".into(), None);
    assert!(matches!(p.advance(PrepareEvent::File(Ok(Some(CONFIG.into())))), PrepareAction::Finish(Ok(None))));
    let (mut p, _) = ReleasePrepare::start("r1".into(), "feat: recurso".into(), None);
    assert!(matches!(p.advance(PrepareEvent::File(Ok(None))), PrepareAction::Finish(Ok(None))));
    let (mut p, _) = ReleasePrepare::start("r1".into(), "docs: orientar".into(), Some("notas.md".into()));
    match p.advance(PrepareEvent::File(Ok(Some(CONFIG.into())))) {
        PrepareAction::Finish(Err(e)) => assert!(e.contains("--entry-file exige")),
        other => panic!("{other:?}"),
    }
}

#[test]
fn a_shallow_history_or_a_failed_diff_stops_the_preparation() {
    let (mut p, _) = ReleasePrepare::start("r1".into(), "feat: recurso".into(), None);
    p.advance(PrepareEvent::File(Ok(Some(CONFIG.into()))));
    match p.advance(PrepareEvent::Bytes(Ok(b"true\n".to_vec()))) {
        PrepareAction::Finish(Err(e)) => assert_eq!(e, "esta operação exige histórico completo."),
        other => panic!("{other:?}"),
    }
    let (mut p, mut action) = ReleasePrepare::start("r1".into(), "feat: recurso".into(), None);
    for _ in 0..30 {
        let event = match &action {
            PrepareAction::Diff(_, _) => PrepareEvent::Text(Err("arquivo sensível".into())),
            PrepareAction::Finish(result) => {
                assert_eq!(
                    result.as_ref().unwrap_err(),
                    "arquivo sensível\nUse commit --entry-file para fornecer notas revisadas sem IA."
                );
                return;
            }
            other => prepare_answer(other),
        };
        action = p.advance(event);
    }
    panic!("a preparação não terminou");
}

#[test]
fn revised_notes_rewrite_the_entry_and_the_notes_hash() {
    let m = revised_manifest(&first_manifest(), "novo".into());
    assert_eq!(m.notes_hash, "novo");
    assert_eq!((m.version.as_str(), m.parent.as_str(), m.fingerprint.as_str()), ("0.1.0", "p1", "fp"));
    let prepared = Prepared { tree: "t1".into(), version: "0.1.0".into(), notes: NOTES.into() };
    let (mut r, action) = NotesRevision::start(prepared, "### Entrega\n\nRevisado.".into());
    assert!(matches!(action, PrepareAction::ReadFile(ref t, ref p) if t == "t1" && p == "CHANGELOG.md"));
    r.advance(PrepareEvent::File(Ok(Some(prepared_log()))));
    r.advance(PrepareEvent::File(Ok(Some("MANIFEST".into()))));
    match r.advance(PrepareEvent::Manifest(Ok(first_manifest()))) {
        PrepareAction::Hash(n) => assert_eq!(n, "### Entrega\n\nRevisado."),
        other => panic!("{other:?}"),
    }
    match r.advance(PrepareEvent::Text(Ok("h2".into()))) {
        PrepareAction::WriteTree(tree, log, m) => {
            assert_eq!(tree, "t1");
            assert!(log.contains("## 0.1.0\n\n### Entrega\n\nRevisado.\n"));
            assert_eq!(m.notes_hash, "h2");
            assert_eq!(m.version, "0.1.0");
        }
        other => panic!("{other:?}"),
    }
    match r.advance(PrepareEvent::Text(Ok("t3".into()))) {
        PrepareAction::Finish(Ok(Some(p))) => assert_eq!((p.tree.as_str(), p.notes.as_str()), ("t3", "### Entrega\n\nRevisado.")),
        other => panic!("{other:?}"),
    }
    let prepared = Prepared { tree: "t1".into(), version: "0.1.0".into(), notes: NOTES.into() };
    let (mut r, _) = NotesRevision::start(prepared, "sem título".into());
    assert!(matches!(r.advance(PrepareEvent::File(Ok(None))), PrepareAction::Finish(Err(_))));
    let prepared = Prepared { tree: "t1".into(), version: "0.1.0".into(), notes: NOTES.into() };
    let (mut r, _) = NotesRevision::start(prepared, NOTES.into());
    match r.advance(PrepareEvent::File(Ok(None))) {
        PrepareAction::Finish(Err(e)) => assert_eq!(e, "changelog preparado ausente."),
        other => panic!("{other:?}"),
    }
}

#[test]
fn the_fingerprint_data_is_compact_json_with_sorted_keys() {
    assert_eq!(fingerprint_data("t\n", None, Some("v1.0.0")), "{\"base\":null,\"base_tag\":\"v1.0.0\",\"content\":\"t\\n\"}");
    assert_eq!(fingerprint_data("x", Some("abc"), None), "{\"base\":\"abc\",\"base_tag\":null,\"content\":\"x\"}");
}

#[test]
fn a_release_after_a_published_tag_takes_the_next_version() {
    let (mut p, mut action) = ReleasePrepare::start("r1".into(), "feat: adicionar recurso".into(), None);
    for _ in 0..30 {
        let event = match &action {
            PrepareAction::Finish(result) => {
                let prepared = result.as_ref().unwrap().as_ref().unwrap();
                assert_eq!((prepared.tree.as_str(), prepared.version.as_str()), ("t2", "0.5.0"));
                return;
            }
            PrepareAction::LatestPublished(_) => PrepareEvent::Published(Ok(Some(("v0.4.0".into(), "c4".into())))),
            PrepareAction::Normalized(rev) if rev == "c4" => PrepareEvent::Text(Ok("base".into())),
            PrepareAction::Diff(from, to) => {
                assert_eq!((from.as_str(), to.as_str()), ("base", "tree"));
                PrepareEvent::Text(Ok("+x\n".into()))
            }
            PrepareAction::WriteTree(_, log, m) => {
                assert_eq!(m.version, "0.5.0");
                assert_eq!((m.base.as_deref(), m.base_tag.as_deref()), (Some("c4"), Some("v0.4.0")));
                assert_eq!(*log, format!("# Changelog\n\n{START}## 0.5.0\n\n{NOTES}\n{END}"));
                PrepareEvent::Text(Ok("t2".into()))
            }
            other => prepare_answer(other),
        };
        assert!(p.accepts(&event));
        action = p.advance(event);
    }
    panic!("a preparação não terminou");
}
