use clean_dev_cycle::github::{ReleaseFields, TagObject};
use clean_dev_cycle::latest::{LatestAction, LatestEvent, LatestPublished};

const OLD: &str = "1111111111111111111111111111111111111111";
const NEW: &str = "2222222222222222222222222222222222222222";

fn release(tag: &str, prerelease: bool) -> ReleaseFields {
    ReleaseFields {
        id: Some(1),
        tag_name: Some(tag.into()),
        name: Some(tag.into()),
        body: Some(String::new()),
        draft: Some(false),
        prerelease: Some(prerelease),
    }
}

fn answer(action: &LatestAction, ancestors: &[&str]) -> LatestEvent {
    match action {
        LatestAction::ReadBytes(args) if args[0] == "remote" => LatestEvent::Bytes(Ok(b"git@github.com:dono/repo.git\n".to_vec())),
        LatestAction::ReadBytes(args) => {
            assert_eq!(args[0], "merge-base");
            let sha = args[1].as_str();
            let base = if ancestors.contains(&sha) { sha } else { "3333333333333333333333333333333333333333" };
            LatestEvent::Bytes(Ok(format!("{base}\n").into_bytes()))
        }
        LatestAction::Get(repo, path) => {
            assert_eq!(repo, "dono/repo");
            if path.starts_with("releases?") {
                LatestEvent::Page(Ok(Some(Some(vec![release("v1.0.0", false), release("v2.0.0-rc.1", true), release("v1.1.0", false)]))))
            } else {
                let sha = if path.ends_with("v1.1.0") { NEW } else { OLD };
                LatestEvent::Tag(Ok(Some(TagObject { sha: Some(sha.into()), kind: Some("commit".into()) })))
            }
        }
        LatestAction::Resolve(sha) => LatestEvent::Text(Ok(sha.clone())),
        LatestAction::Finish(_) => panic!("já terminou"),
    }
}

fn search(ancestors: &[&str]) -> Result<Option<(String, String)>, String> {
    let (mut s, mut action) = LatestPublished::start("head".into());
    for _ in 0..30 {
        if let LatestAction::Finish(r) = action {
            return r;
        }
        let event = answer(&action, ancestors);
        assert!(s.accepts(&event));
        action = s.advance(event);
    }
    panic!("a busca não terminou");
}

#[test]
fn the_newest_published_ancestor_is_the_base() {
    assert_eq!(search(&[OLD, NEW]).unwrap(), Some(("v1.1.0".to_string(), NEW.to_string())));
    assert_eq!(search(&[OLD]).unwrap(), Some(("v1.0.0".to_string(), OLD.to_string())));
    assert_eq!(search(&[]).unwrap(), None);
}

#[test]
fn a_published_commit_missing_locally_stops_the_search() {
    let (mut s, _) = LatestPublished::start("head".into());
    s.advance(LatestEvent::Bytes(Ok(b"https://github.com/dono/repo\n".to_vec())));
    s.advance(LatestEvent::Page(Ok(Some(Some(vec![release("v1.0.0", false)])))));
    s.advance(LatestEvent::Tag(Ok(Some(TagObject { sha: Some(OLD.into()), kind: Some("commit".into()) }))));
    match s.advance(LatestEvent::Text(Err("desconhecido".into()))) {
        LatestAction::Finish(Err(e)) => assert!(e.starts_with("atualize o histórico")),
        other => panic!("{other:?}"),
    }
    let (mut s, _) = LatestPublished::start("head".into());
    s.advance(LatestEvent::Bytes(Ok(b"https://github.com/dono/repo\n".to_vec())));
    s.advance(LatestEvent::Page(Ok(Some(Some(vec![release("v1.0.0", false)])))));
    match s.advance(LatestEvent::Tag(Ok(None))) {
        LatestAction::Finish(Err(e)) => assert_eq!(e, "release publicada sem tag."),
        other => panic!("{other:?}"),
    }
    let (mut s, _) = LatestPublished::start("head".into());
    match s.advance(LatestEvent::Bytes(Ok(b"https://gitlab.com/dono/repo\n".to_vec()))) {
        LatestAction::Finish(Err(_)) => {}
        other => panic!("{other:?}"),
    }
}
