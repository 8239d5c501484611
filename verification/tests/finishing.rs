use clean_dev_cycle::finishing::{FinishAction, FinishEvent, ReleaseFinish};
use clean_dev_cycle::jj::{Revision, Snapshot};

fn rev(id: &str) -> Revision {
    Revision {
        id: id.into(),
        change: "k1".into(),
        parents: vec!["p".into()],
        description: "feat: x".into(),
        author_complete: true,
        committer_complete: true,
    }
}

fn snapshot(op: &str, id: &str) -> Snapshot {
    Snapshot { operation: op.into(), revision: rev(id) }
}

struct World {
    tree: String,
    email: String,
    forgotten: bool,
    integrated: bool,
    staged: Vec<String>,
}

fn answer(w: &mut World, action: FinishAction) -> FinishEvent {
    match action {
        FinishAction::Jj { args, isolated } => {
            if args.iter().any(|a| a == "forget") {
                w.forgotten = true;
            }
            if args.iter().any(|a| a == "integrate") {
                w.integrated = true;
            }
            let out = if args.contains(&"user.email".to_owned()) {
                w.email.clone()
            } else if isolated {
                "op-isolada\n".to_owned()
            } else {
                "ok".to_owned()
            };
            FinishEvent::Ran(Ok(out))
        },
        FinishAction::Snapshot { workspace } => FinishEvent::Snapped(Ok(match workspace {
            Some(_) => snapshot("op-tmp", "s1"),
            None => snapshot("op1", "c1"),
        })),
        FinishAction::TempDir => FinishEvent::Created(Ok(("cdc-release-x".into(), "/tmp/x/workspace".into()))),
        FinishAction::File { path, .. } => FinishEvent::FileText(Ok(Some(format!("conteúdo de {path}")))),
        FinishAction::Write { path, .. } => {
            w.staged.push(path);
            FinishEvent::Wrote(Ok(()))
        },
        FinishAction::Show { target, operation } => {
            assert_eq!((target.as_str(), operation.as_str()), ("@-", "op-isolada"));
            FinishEvent::Reported(Ok(rev("c2")))
        },
        FinishAction::Git(args) => {
            assert_eq!(args, vec!["rev-parse", "c2^{tree}"]);
            FinishEvent::Read(Ok(format!("{}\n", w.tree).into_bytes()))
        },
        FinishAction::Check(id) => {
            assert_eq!(id, "c2");
            FinishEvent::Checked(Ok(()))
        },
        FinishAction::Finish(_) => unreachable!(),
    }
}

fn run(w: &mut World, cancelled: bool) -> Result<(), String> {
    let (mut machine, mut action) = ReleaseFinish::start(snapshot("op1", "c1"), "feat: x".into(), "t1".into());
    loop {
        match action {
            FinishAction::Finish(r) => return r,
            other => {
                let e = answer(w, other);
                assert!(machine.accepts(&e));
                action = machine.advance(e, cancelled);
            },
        }
    }
}

fn world() -> World {
    World { tree: "t1".into(), email: "a@b".into(), forgotten: false, integrated: false, staged: Vec::new() }
}

#[test]
fn first_release_is_atomic_and_integrates_the_reviewed_tree() {
    let mut w = world();
    run(&mut w, false).unwrap();
    assert!(w.forgotten && w.integrated);
    assert_eq!(w.staged, vec!["CHANGELOG.md", ".clean-dev-cycle-release.json"]);
}

#[test]
fn a_diverging_tree_or_a_cancellation_integrates_nothing() {
    let mut w = world();
    w.tree = "t2".into();
    assert_eq!(run(&mut w, false).unwrap_err(), "a operação isolada diverge dos arquivos revisados; nada foi integrado.");
    assert!(w.forgotten && !w.integrated);
    let mut w = world();
    assert_eq!(run(&mut w, true).unwrap_err(), "operação cancelada.");
    assert!(!w.integrated);
    let mut w = world();
    w.email = "\n".into();
    assert!(run(&mut w, false).unwrap_err().contains("user.email"));
    assert!(!w.forgotten);
}
