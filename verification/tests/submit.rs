use clean_dev_cycle::jj::Revision;
use clean_dev_cycle::submit::{Submit, SubmitAction, SubmitEvent};

fn rev(id: &str, change: &str, parents: &[&str], description: &str) -> Revision {
    Revision {
        id: id.into(),
        change: change.into(),
        parents: parents.iter().map(|p| p.to_string()).collect(),
        description: description.into(),
        author_complete: true,
        committer_complete: true,
    }
}

struct World {
    change: Revision,
    main: Revision,
    merge_base: Vec<u8>,
    files: Vec<u8>,
    main_after_checks: Revision,
    commands: Vec<Vec<String>>,
}

fn world() -> World {
    World {
        change: rev("c1", "k1", &["m1"], "feat: novo"),
        main: rev("m1", "km", &[], "chore: base"),
        merge_base: b"m1\n".to_vec(),
        files: b"a.rs\n".to_vec(),
        main_after_checks: rev("m1", "km", &[], "chore: base"),
        commands: Vec::new(),
    }
}

fn answer(w: &mut World, action: SubmitAction) -> SubmitEvent {
    match action {
        SubmitAction::Jj(args) => {
            let out = if args.iter().any(|a| a == "op") { "op9".to_owned() } else { String::new() };
            w.commands.push(args);
            SubmitEvent::Ran(Ok(out))
        },
        SubmitAction::Show { target, operation } => {
            let r = match target.as_deref() {
                None => w.change.copy(),
                Some("main@origin") => {
                    let _ = &operation;
                    if w.commands.iter().filter(|c| c.iter().any(|a| a == "fetch")).count() > 1 {
                        w.main_after_checks.copy()
                    } else {
                        w.main.copy()
                    }
                },
                Some("@") => rev("w", "kw", &["c1"], ""),
                Some("main") => w.change.copy(),
                Some(other) => {
                    assert_eq!(other, w.change.change);
                    w.change.copy()
                },
            };
            SubmitEvent::Reported(Ok(r))
        },
        SubmitAction::Git(args) => {
            let out = match args[0].as_str() {
                "merge-base" => w.merge_base.clone(),
                "cat-file" => b"tree t\n\nfeat: novo\n".to_vec(),
                "diff" => w.files.clone(),
                "rev-list" => b"c0\nc1\n".to_vec(),
                _ => unreachable!(),
            };
            SubmitEvent::Read(Ok(out))
        },
        SubmitAction::CheckRange { from, to } => {
            assert_eq!((from.as_str(), to.as_str()), ("m1", "c1"));
            SubmitEvent::Ranged(Ok(true))
        },
        SubmitAction::RunChecks(id) => {
            assert_eq!(id, "c1");
            SubmitEvent::Checked(Ok(()))
        },
        SubmitAction::Finish(_) => unreachable!(),
    }
}

fn run(w: &mut World, cancelled: bool) -> Result<String, String> {
    let (mut submit, mut action) = Submit::start();
    loop {
        match action {
            SubmitAction::Finish(r) => return r,
            other => {
                let e = answer(w, other);
                assert!(submit.accepts(&e));
                action = submit.advance(e, cancelled);
            },
        }
    }
}

#[test]
fn a_direct_child_of_main_is_checked_and_pushed_at_one_operation() {
    let mut w = world();
    assert_eq!(
        run(&mut w, false).unwrap(),
        "Publicado c1 diretamente na main. Checks locais aprovados. Acompanhe o CI no GitHub."
    );
    assert_eq!(
        w.commands.last().unwrap(),
        &vec!["--at-operation", "op9", "git", "push", "--remote", "origin", "--bookmark", "main"]
    );
}

#[test]
fn resubmission_of_an_integrated_change_is_a_noop() {
    let mut w = world();
    w.merge_base = b"c1\n".to_vec();
    assert_eq!(run(&mut w, false).unwrap(), "Mudança já integrada na main: c1.");
    assert!(!w.commands.iter().any(|c| c.iter().any(|a| a == "push")));
}

#[test]
fn layers_must_be_sent_in_order_and_main_must_not_advance() {
    let mut w = world();
    w.change = rev("c1", "k1", &["c0"], "feat: novo");
    assert_eq!(
        run(&mut w, false).unwrap_err(),
        "a mudança precisa ser filha direta de main@origin. Atualize a base com jj rebase. Envie a primeira camada com submit --revision c0."
    );
    let mut w = world();
    w.main_after_checks = rev("m2", "km2", &[], "");
    assert_eq!(run(&mut w, false).unwrap_err(), "a main avançou durante os checks. Atualize a base, revise e reenvie.");
    let mut w = world();
    w.files = Vec::new();
    assert_eq!(run(&mut w, false).unwrap_err(), "não há alterações de arquivos para enviar.");
    let mut w = world();
    w.change = rev("c1", "k1", &["m1"], "sem tipo");
    assert!(run(&mut w, false).is_err());
    let mut w = world();
    assert_eq!(run(&mut w, true).unwrap_err(), "operação cancelada.");
}
