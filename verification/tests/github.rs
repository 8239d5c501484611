use clean_dev_cycle::github::{
    asset_confirmed, asset_name, asset_nonempty, asset_plan, asset_size, published_order, release_id, verify_release, version,
    AssetFields, Github, LookupStep, Publish, PublishAction, PublishEvent, ReleaseFields, TagLookup, TagObject,
};
use clean_dev_cycle::version::Version;

const SHA: &str = "aaaaaaaaaaaaaaaaaaaaaaaaaaaaaaaaaaaaaaaa";

#[derive(Default)]
struct State {
    tag: Option<String>,
    release: Option<(String, String, bool)>,
    posts: usize,
    fail_release: bool,
    lost_response: bool,
    newer: bool,
}

fn fields(tag: &str, notes: &str) -> ReleaseFields {
    ReleaseFields {
        id: Some(7),
        tag_name: Some(tag.into()),
        name: Some(tag.into()),
        body: Some(notes.into()),
        draft: Some(false),
        prerelease: Some(false),
    }
}

/// Answers the requests of a publication as a GitHub in this state would.
fn respond(state: &mut State, action: PublishAction) -> PublishEvent {
    match action {
        PublishAction::GetTag(path) => {
            assert!(path.starts_with("git/ref/tags/"));
            PublishEvent::Tag(Ok(state.tag.clone().map(|sha| TagObject { sha: Some(sha), kind: Some("commit".into()) })))
        },
        PublishAction::GetRelease(path) => {
            assert!(path.starts_with("releases/tags/"));
            PublishEvent::Release(Ok(state.release.as_ref().map(|(tag, notes, _)| fields(tag, notes))))
        },
        PublishAction::GetPage(path) => {
            assert!(path.starts_with("releases?per_page=100&page="));
            let page = if state.newer { vec![fields("v1.0.0", "x")] } else { Vec::new() };
            PublishEvent::Page(Ok(Some(Some(page))))
        },
        PublishAction::PostRef { reference, sha } => {
            assert!(reference.starts_with("refs/tags/"));
            state.posts += 1;
            state.tag = Some(sha);
            PublishEvent::Posted(Ok(()))
        },
        PublishAction::PostRelease { tag, notes, latest, .. } => {
            state.posts += 1;
            if state.fail_release {
                return PublishEvent::Posted(Err("interrupção".into()));
            }
            state.release = Some((tag, notes, latest));
            if state.lost_response {
                return PublishEvent::Posted(Err("resposta perdida".into()));
            }
            PublishEvent::Posted(Ok(()))
        },
        PublishAction::Finish(_) => unreachable!(),
    }
}

fn publish(state: &mut State, sha: &str, version: Version, notes: &str) -> Result<ReleaseFields, String> {
    let (mut publication, mut action) = Publish::start(sha.into(), version, notes.into());
    loop {
        match action {
            PublishAction::Finish(result) => return result,
            other => {
                let event = respond(state, other);
                assert!(publication.accepts(&event));
                action = publication.advance(event);
            },
        }
    }
}

#[test]
fn interrupted_publication_resumes_without_recreating_tag_or_notes() {
    let mut state = State { fail_release: true, ..State::default() };
    assert!(publish(&mut state, SHA, Version::new(0, 1, 0), "notas").is_err());
    assert_eq!(state.tag.as_deref(), Some(SHA));
    state.fail_release = false;
    publish(&mut state, SHA, Version::new(0, 1, 0), "notas").unwrap();
    let posts = state.posts;
    publish(&mut state, SHA, Version::new(0, 1, 0), "notas").unwrap();
    assert_eq!(state.posts, posts);
    assert!(publish(&mut state, SHA, Version::new(0, 1, 0), "divergentes").is_err());
}

#[test]
fn conflicting_tag_is_never_overwritten() {
    let mut state = State { tag: Some("bbbbbbbbbbbbbbbbbbbbbbbbbbbbbbbbbbbbbbbb".into()), ..State::default() };
    assert!(publish(&mut state, SHA, Version::new(0, 1, 0), "notas").is_err());
    assert_eq!(state.posts, 0);
}

#[test]
fn delayed_release_does_not_replace_latest_and_lost_response_is_reconciled() {
    let mut state = State { newer: true, lost_response: true, ..State::default() };
    publish(&mut state, SHA, Version::new(0, 1, 0), "notas").unwrap();
    assert_eq!(state.release.as_ref().unwrap().2, false);
}

#[test]
fn a_new_release_without_newer_ones_is_the_latest() {
    let mut state = State::default();
    let release = publish(&mut state, SHA, Version::new(0, 2, 0), "notas").unwrap();
    assert_eq!(release.tag_name.as_deref(), Some("v0.2.0"));
    assert_eq!(state.release.as_ref().unwrap().2, true);
    assert_eq!(state.posts, 2);
}

#[test]
fn origin_must_name_a_github_repository() {
    for url in ["git@github.com:dono/repo.git", "https://github.com/dono/repo", "ssh://git@github.com/dono/repo.git.git\n"] {
        assert_eq!(Github::discover(Ok(url.as_bytes().to_vec())).unwrap().repository, "dono/repo", "{url}");
    }
    assert_eq!(Github::discover(Ok(b"https://gitlab.com/a/b".to_vec())).unwrap_err(), "releases exigem origin no github.com e gh autenticado.");
    for url in ["https://github.com/a", "https://github.com/a/b/c", "https://github.com/a/b c", "https://github.com//b"] {
        assert_eq!(Github::discover(Ok(url.as_bytes().to_vec())).unwrap_err(), "origin precisa identificar OWNER/REPO no GitHub.");
    }
    assert_eq!(Github::discover(Ok(vec![0xff])).unwrap_err(), "origin inválido.");
    assert_eq!(Github::discover(Err("Git: sem origin".into())).unwrap_err(), "Git: sem origin");
}

#[test]
fn only_published_stable_releases_count() {
    assert!(version(&fields("v1.2.3", "x")).unwrap().same(&Version::new(1, 2, 3)));
    let mut draft = fields("v1.2.3", "x");
    draft.draft = Some(true);
    assert!(version(&draft).is_none());
    assert!(version(&fields("v1.2.3-rc.1", "x")).is_none());
    assert!(version(&fields("1.2.3", "x")).is_none());
}

#[test]
fn existing_releases_must_match_the_prepared_notes() {
    assert!(verify_release(&fields("v1.0.0", "n"), "v1.0.0", "n").is_ok());
    assert_eq!(
        verify_release(&fields("v1.0.0", "n"), "v1.0.0", "m").unwrap_err(),
        "release v1.0.0 existente diverge das notas preparadas; nada será sobrescrito."
    );
}

#[test]
fn releases_are_tried_newest_first() {
    let order = published_order(&vec![fields("v0.1.0", ""), fields("v0.3.0", ""), fields("x", ""), fields("v0.2.0", "")]);
    let tags: Vec<_> = order.iter().map(|c| c.tag.clone()).collect();
    assert_eq!(tags, vec!["v0.3.0", "v0.2.0", "v0.1.0"]);
}

#[test]
fn annotated_tags_are_followed_to_their_commit() {
    let (mut lookup, path) = TagLookup::start("v1.0.0");
    assert_eq!(path, "git/ref/tags/v1.0.0");
    let tag_sha = "b".repeat(40);
    match lookup.advance(Ok(Some(TagObject { sha: Some(tag_sha.clone()), kind: Some("tag".into()) }))) {
        LookupStep::Get(p) => assert_eq!(p, format!("git/tags/{tag_sha}")),
        _ => panic!("esperava seguir a tag"),
    }
    match lookup.advance(Ok(Some(TagObject { sha: Some(SHA.into()), kind: Some("commit".into()) }))) {
        LookupStep::Done(Ok(Some(c))) => assert_eq!(c, SHA),
        _ => panic!("esperava o commit"),
    }
    let (mut missing, _) = TagLookup::start("v2");
    assert!(matches!(missing.advance(Ok(None)), LookupStep::Done(Ok(None))));
    let (mut bad, _) = TagLookup::start("v3");
    match bad.advance(Ok(Some(TagObject { sha: Some("xyz".into()), kind: Some("commit".into()) }))) {
        LookupStep::Done(Err(e)) => assert_eq!(e, "SHA inválido na tag."),
        _ => panic!("esperava um erro"),
    }
}

#[test]
fn assets_are_uploaded_once_and_never_replaced_by_another_size() {
    let listing = |assets: Vec<(&str, u64)>| {
        Some(Some(assets.into_iter().map(|(n, s)| AssetFields { name: Some(n.into()), size: Some(s) }).collect()))
    };
    assert_eq!(asset_size(listing(vec![("a.zip", 5)]), "a.zip").unwrap(), Some(5));
    assert_eq!(asset_size(listing(vec![("b.zip", 5)]), "a.zip").unwrap(), None);
    assert_eq!(asset_size(None, "a").unwrap_err(), "não foi possível listar os assets da release.");
    assert_eq!(asset_plan("a.zip", 5, Ok(None)).unwrap(), true);
    assert_eq!(asset_plan("a.zip", 5, Ok(Some(5))).unwrap(), false);
    assert_eq!(asset_plan("a.zip", 5, Ok(Some(6))).unwrap_err(), "asset a.zip já existe com outro tamanho; nada será sobrescrito.");
    assert!(asset_confirmed("a.zip", 5, Ok(Some(5))).is_ok());
    assert_eq!(asset_confirmed("a.zip", 5, Ok(None)).unwrap_err(), "asset a.zip não foi confirmado na release.");
    assert_eq!(asset_nonempty("a.zip", 0).unwrap_err(), "asset a.zip está vazio.");
    assert_eq!(asset_name(Some("a#b"), "dir/a#b").unwrap_err(), "nome de asset inválido: dir/a#b.");
    assert_eq!(asset_name(Some("a.zip"), "dir/a.zip").unwrap(), "a.zip");
    assert_eq!(release_id(&fields("v1", "")).unwrap(), 7);
}
