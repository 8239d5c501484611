//! What the library decides about GitHub: the repository that `origin` names, and which
//! published releases count and match the prepared notes.
use vstd::prelude::*;
use vstd::string::*;
use vstd::utf8::{decode_utf8, valid_utf8};
use crate::git::bytes_result;
use crate::message::text_result;
use crate::text::{
    chars_of, ends_with, ends_with_chars, find, find_chars, slice_of, starts_with,
    starts_with_chars, string_of, trim, trim_chars, utf8_text,
};
use crate::version::{Version, parse_version, semver_parse};

verus! {

/// A repository on github.com, as `OWNER/REPO`.
#[derive(Debug)]
pub struct Github {
    pub repository: String,
}

pub open spec fn origin_error() -> Seq<char> {
    "origin inválido."@
}

pub open spec fn host_error() -> Seq<char> {
    "releases exigem origin no github.com e gh autenticado."@
}

pub open spec fn owner_repo_error() -> Seq<char> {
    "origin precisa identificar OWNER/REPO no GitHub."@
}

/// `s` with every trailing `suffix` removed (`str::trim_end_matches`).
pub open spec fn strip_suffixes(s: Seq<char>, suffix: Seq<char>) -> Seq<char>
    decreases s.len(),
{
    if suffix.len() > 0 && ends_with(s, suffix) {
        strip_suffixes(s.take(s.len() - suffix.len()), suffix)
    } else {
        s
    }
}

/// What follows the github.com prefix of a remote URL (SSH, HTTPS or SSH URL form).
pub open spec fn github_path(remote: Seq<char>) -> Option<Seq<char>> {
    let t = trim(remote);
    if starts_with(t, "git@github.com:"@) {
        Some(t.skip("git@github.com:"@.len() as int))
    } else if starts_with(t, "https://github.com/"@) {
        Some(t.skip("https://github.com/"@.len() as int))
    } else if starts_with(t, "ssh://git@github.com/"@) {
        Some(t.skip("ssh://git@github.com/"@.len() as int))
    } else {
        None
    }
}

/// The characters that an owner or repository name may hold.
pub open spec fn name_char(c: char) -> bool {
    ('a' <= c <= 'z') || ('A' <= c <= 'Z') || ('0' <= c <= '9') || c == '-' || c == '_' || c == '.'
}

pub open spec fn valid_part(p: Seq<char>) -> bool {
    p.len() > 0 && forall|i: int| 0 <= i < p.len() ==> #[trigger] name_char(p[i])
}

/// Whether `name` is `OWNER/REPO`: two non-empty parts of letters, digits, `-`, `_` and `.`.
pub open spec fn owner_repo(name: Seq<char>) -> bool {
    match find(name, "/"@) {
        None => false,
        Some(i) => valid_part(name.take(i)) && valid_part(name.skip(i + 1)),
    }
}

/// The repository that the URL of `origin` names, or why it names none.
pub open spec fn github_repository(remote: Result<Seq<u8>, Seq<char>>) -> Result<Seq<char>, Seq<char>> {
    match remote {
        Err(e) => Err(e),
        Ok(bytes) => if !valid_utf8(bytes) {
            Err(origin_error())
        } else {
            match github_path(decode_utf8(bytes)) {
                None => Err(host_error()),
                Some(path) => {
                    let name = strip_suffixes(path, ".git"@);
                    if owner_repo(name) {
                        Ok(name)
                    } else {
                        Err(owner_repo_error())
                    }
                },
            }
        },
    }
}

/// A repository that `origin` names is always `OWNER/REPO`: two non-empty names of
/// letters, digits, `-`, `_` and `.`, joined by one slash.
pub proof fn lemma_repository_is_owner_and_name(remote: Result<Seq<u8>, Seq<char>>, name: Seq<char>)
    requires
        github_repository(remote) == Ok::<Seq<char>, Seq<char>>(name),
    ensures
        exists|owner: Seq<char>, repo: Seq<char>| valid_part(owner) && valid_part(repo) && name == owner + "/"@ + repo,
{
    crate::text::lemma_find_from_bounds(name, "/"@, 0);
    reveal_strlit("/");
    let i = find(name, "/"@)->Some_0;
    let owner = name.take(i);
    let repo = name.skip(i + 1);
    assert(name.subrange(i, i + 1) == "/"@);
    assert(name =~= owner + "/"@ + repo);
}

fn strip_suffixes_chars(s: Vec<char>, suffix: &[char]) -> (r: Vec<char>)
    ensures
        r@ == strip_suffixes(s@, suffix@),
    decreases s@.len(),
{
    if suffix.len() > 0 && ends_with_chars(&s, suffix) {
        let shorter = slice_of(&s, 0, s.len() - suffix.len());
        assert(shorter@ == s@.take(s@.len() - suffix@.len()));
        strip_suffixes_chars(shorter, suffix)
    } else {
        s
    }
}

fn valid_part_chars(p: &[char]) -> (r: bool)
    ensures
        r == valid_part(p@),
{
    if p.len() == 0 {
        return false;
    }
    let mut i: usize = 0;
    while i < p.len()
        invariant
            i <= p@.len(),
            forall|k: int| 0 <= k < i ==> #[trigger] name_char(p@[k]),
        decreases p.len() - i,
    {
        let c = p[i];
        if !(('a' <= c && c <= 'z') || ('A' <= c && c <= 'Z') || ('0' <= c && c <= '9') || c == '-' || c == '_'
            || c == '.') {
            assert(!name_char(p@[i as int]));
            return false;
        }
        i += 1;
    }
    true
}

fn strip_prefix_chars(s: &[char], prefix: &str) -> (r: Option<Vec<char>>)
    ensures
        starts_with(s@, prefix@) ==> (r matches Some(v) && v@ == s@.skip(prefix@.len() as int)),
        !starts_with(s@, prefix@) ==> r is None,
{
    let p = chars_of(prefix);
    if starts_with_chars(s, &p) {
        let v = slice_of(s, p.len(), s.len());
        assert(v@ == s@.skip(p@.len() as int));
        Some(v)
    } else {
        None
    }
}

impl Github {
    /// The repository that `origin` names, from what `git remote get-url origin`
    /// printed (or that read's error).
    pub fn discover(remote: Result<Vec<u8>, String>) -> (r: Result<Github, String>)
        ensures
            match r {
                Ok(g) => github_repository(bytes_result(remote)) == Ok::<Seq<char>, Seq<char>>(g.repository@),
                Err(e) => github_repository(bytes_result(remote)) == Err::<Seq<char>, Seq<char>>(e@),
            },
            r matches Ok(g) ==> exists|owner: Seq<char>, repo: Seq<char>| valid_part(owner) && valid_part(repo)
                && g.repository@ == owner + "/"@ + repo,
    {
        proof {
            if let Ok(name) = github_repository(bytes_result(remote)) {
                lemma_repository_is_owner_and_name(bytes_result(remote), name);
            }
        }
        let bytes = remote?;
        let text = match utf8_text(bytes.as_slice()) {
            None => return Err(String::from_str("origin inválido.")),
            Some(t) => t,
        };
        let t = trim_chars(&chars_of(text.as_str()));
        let path = match strip_prefix_chars(&t, "git@github.com:") {
            Some(p) => p,
            None => match strip_prefix_chars(&t, "https://github.com/") {
                Some(p) => p,
                None => match strip_prefix_chars(&t, "ssh://git@github.com/") {
                    Some(p) => p,
                    None => return Err(String::from_str("releases exigem origin no github.com e gh autenticado.")),
                },
            },
        };
        let name = strip_suffixes_chars(path, &chars_of(".git"));
        proof {
            reveal_strlit("/");
        }
        let slash = match find_chars(&name, &chars_of("/")) {
            None => return Err(String::from_str("origin precisa identificar OWNER/REPO no GitHub.")),
            Some(i) => i,
        };
        assert(slash + 1 <= name@.len() && name@.len() == name.len());
        let owner = slice_of(&name, 0, slash);
        let repo = slice_of(&name, slash + 1, name.len());
        assert(owner@ == name@.take(slash as int));
        assert(repo@ == name@.skip(slash + 1));
        if !valid_part_chars(&owner) || !valid_part_chars(&repo) {
            return Err(String::from_str("origin precisa identificar OWNER/REPO no GitHub."));
        }
        assert(name@.subrange(0, name@.len() as int) == name@);
        Ok(Github { repository: string_of(&name, 0, name.len()) })
    }
}

/// What the library reads of a release that GitHub reports.
#[derive(Debug)]
pub struct ReleaseFields {
    pub id: Option<u64>,
    pub tag_name: Option<String>,
    pub name: Option<String>,
    pub body: Option<String>,
    pub draft: Option<bool>,
    pub prerelease: Option<bool>,
}

pub open spec fn opt_view(o: Option<String>) -> Option<Seq<char>> {
    match o {
        Some(s) => Some(s@),
        None => None,
    }
}

/// The version of a published release: not a draft nor a pre-release, tagged `v` and a
/// version without pre-release or build.
pub open spec fn published_version(release: ReleaseFields) -> Option<(u64, u64, u64, Seq<char>, Seq<char>)> {
    if release.draft == Some(false) && release.prerelease == Some(false) {
        match opt_view(release.tag_name) {
            Some(tag) => match crate::release::tag_version_of(tag) {
                Ok(v) => if v.3.len() == 0 && v.4.len() == 0 {
                    Some(v)
                } else {
                    None
                },
                Err(_) => None,
            },
            None => None,
        }
    } else {
        None
    }
}

/// Only a final release counts as published: a draft, a pre-release, or a release whose
/// flags are missing gives no version; a version that counts comes from the release's tag
/// and has neither pre-release nor build.
pub proof fn lemma_only_final_releases_are_published(release: ReleaseFields)
    ensures
        release.draft != Some(false) || release.prerelease != Some(false) ==> published_version(release) is None,
        published_version(release) matches Some(v) ==> {
            &&& release.draft == Some(false) && release.prerelease == Some(false)
            &&& release.tag_name is Some
            &&& v.3.len() == 0 && v.4.len() == 0
        },
{
}

/// The version of a published release, if it counts as one.
pub fn version(release: &ReleaseFields) -> (r: Option<Version>)
    ensures
        match r {
            Some(v) => published_version(*release) == Some(v@),
            None => published_version(*release) is None,
        },
{
    if release.draft != Some(false) || release.prerelease != Some(false) {
        return None;
    }
    let tag = match &release.tag_name {
        None => return None,
        Some(t) => t,
    };
    match crate::release::tag_version(tag.as_str()) {
        Err(_) => None,
        Ok(v) => if v.pre.as_str().is_empty() && v.build.as_str().is_empty() {
            Some(v)
        } else {
            None
        },
    }
}

pub open spec fn diverging_release_error(tag: Seq<char>) -> Seq<char> {
    "release "@ + tag + " existente diverge das notas preparadas; nada será sobrescrito."@
}

/// Whether an existing release is exactly the one to publish: tag and name `tag`, body
/// `notes`, neither a draft nor a pre-release.
pub open spec fn release_matches(release: ReleaseFields, tag: Seq<char>, notes: Seq<char>) -> bool {
    &&& opt_view(release.tag_name) == Some(tag)
    &&& opt_view(release.name) == Some(tag)
    &&& opt_view(release.body) == Some(notes)
    &&& release.draft == Some(false)
    &&& release.prerelease == Some(false)
}

fn opt_is(o: &Option<String>, s: &str) -> (r: bool)
    ensures
        r == (opt_view(*o) == Some(s@)),
{
    match o {
        Some(x) => crate::text::same_chars(&chars_of(x.as_str()), &chars_of(s)),
        None => false,
    }
}

/// Accepts an existing release only when it is exactly the one to publish.
pub fn verify_release(release: &ReleaseFields, tag: &str, notes: &str) -> (r: Result<(), String>)
    ensures
        r is Ok <==> release_matches(*release, tag@, notes@),
        r matches Err(e) ==> e@ == diverging_release_error(tag@),
{
    if !opt_is(&release.tag_name, tag) || !opt_is(&release.name, tag) || !opt_is(&release.body, notes)
        || release.draft != Some(false) || release.prerelease != Some(false) {
        let mut e = String::from_str("release ");
        e.append(tag);
        e.append(" existente diverge das notas preparadas; nada será sobrescrito.");
        return Err(e);
    }
    Ok(())
}



/// What the library reads of a Git object that a tag reference points to: its `sha` and
/// `type`, where they are texts.
#[derive(Debug)]
pub struct TagObject {
    pub sha: Option<String>,
    pub kind: Option<String>,
}

/// What publishing asks GitHub next.
#[derive(Debug)]
pub enum PublishAction {
    /// `GET` a tag reference or an annotated tag at this path; answer with `Tag`.
    GetTag(String),
    /// `POST git/refs` creating `reference` at `sha`; answer with `Posted`.
    PostRef { reference: String, sha: String },
    /// `GET` the release of a tag at this path; answer with `Release`.
    GetRelease(String),
    /// `GET` a page of releases at this path; answer with `Page`.
    GetPage(String),
    /// `POST releases` creating the release of `tag` at `sha` with `notes`, neither a draft
    /// nor a pre-release, marked latest when `latest`; answer with `Posted`.
    PostRelease { tag: String, sha: String, notes: String, latest: bool },
    /// The end: the published release, or the error.
    Finish(Result<ReleaseFields, String>),
}

/// The answer to the last request: `None` where GitHub answered 404.
#[derive(Debug)]
pub enum PublishEvent {
    Tag(Result<Option<TagObject>, String>),
    Posted(Result<(), String>),
    Release(Result<Option<ReleaseFields>, String>),
    /// A page of releases: `Some(None)` when the answer is not a list.
    Page(Result<Option<Option<Vec<ReleaseFields>>>, String>),
}

pub enum PublishActionView {
    GetTag(Seq<char>),
    PostRef(Seq<char>, Seq<char>),
    GetRelease(Seq<char>),
    GetPage(Seq<char>),
    PostRelease(Seq<char>, Seq<char>, Seq<char>, bool),
    Finish(Result<ReleaseFields, Seq<char>>),
}

pub enum PublishEventView {
    Tag(Result<Option<(Option<Seq<char>>, Option<Seq<char>>)>, Seq<char>>),
    Posted(Result<(), Seq<char>>),
    Release(Result<Option<ReleaseFields>, Seq<char>>),
    Page(Result<Option<Option<Seq<ReleaseFields>>>, Seq<char>>),
}

impl View for PublishAction {
    type V = PublishActionView;

    open spec fn view(&self) -> PublishActionView {
        match self {
            PublishAction::GetTag(p) => PublishActionView::GetTag(p@),
            PublishAction::PostRef { reference, sha } => PublishActionView::PostRef(reference@, sha@),
            PublishAction::GetRelease(p) => PublishActionView::GetRelease(p@),
            PublishAction::GetPage(p) => PublishActionView::GetPage(p@),
            PublishAction::PostRelease { tag, sha, notes, latest } => PublishActionView::PostRelease(tag@, sha@, notes@, *latest),
            PublishAction::Finish(r) => PublishActionView::Finish(match r {
                Ok(f) => Ok(*f),
                Err(e) => Err(e@),
            }),
        }
    }
}

impl View for PublishEvent {
    type V = PublishEventView;

    open spec fn view(&self) -> PublishEventView {
        match self {
            PublishEvent::Tag(r) => PublishEventView::Tag(match r {
                Ok(Some(o)) => Ok(Some((opt_view(o.sha), opt_view(o.kind)))),
                Ok(None) => Ok(None),
                Err(e) => Err(e@),
            }),
            PublishEvent::Posted(r) => PublishEventView::Posted(match r {
                Ok(()) => Ok(()),
                Err(e) => Err(e@),
            }),
            PublishEvent::Release(r) => PublishEventView::Release(match r {
                Ok(f) => Ok(*f),
                Err(e) => Err(e@),
            }),
            PublishEvent::Page(r) => PublishEventView::Page(match r {
                Ok(Some(Some(v))) => Ok(Some(Some(v@))),
                Ok(Some(None)) => Ok(Some(None)),
                Ok(None) => Ok(None),
                Err(e) => Err(e@),
            }),
        }
    }
}

#[derive(Debug)]
pub enum PublishStage {
    FirstTag,
    Created,
    ConfirmTag,
    Existing,
    Page,
    Posted,
    Confirm,
    Done,
}

/// A publication in progress.
#[derive(Debug)]
pub struct Publish {
    pub stage: PublishStage,
    pub sha: String,
    pub version: Version,
    pub notes: String,
    pub tag: String,
    /// The objects followed in the current tag lookup.
    pub depth: u8,
    /// The outcome of creating the tag, once tried.
    pub create: Option<Result<(), String>>,
    /// The page of releases asked for.
    pub page: u64,
    /// Whether a page held a newer published release.
    pub newer: bool,
    /// The outcome of creating the release, once tried.
    pub created: Option<Result<(), String>>,
}

pub struct PublishView {
    pub stage: PublishStage,
    pub sha: Seq<char>,
    pub version: (u64, u64, u64, Seq<char>, Seq<char>),
    pub notes: Seq<char>,
    pub tag: Seq<char>,
    pub depth: u8,
    pub create: Option<Result<(), Seq<char>>>,
    pub page: u64,
    pub newer: bool,
    pub created: Option<Result<(), Seq<char>>>,
}

pub open spec fn unit_opt(o: Option<Result<(), String>>) -> Option<Result<(), Seq<char>>> {
    match o {
        Some(Ok(())) => Some(Ok(())),
        Some(Err(e)) => Some(Err(e@)),
        None => None,
    }
}

impl View for Publish {
    type V = PublishView;

    open spec fn view(&self) -> PublishView {
        PublishView {
            stage: self.stage,
            sha: self.sha@,
            version: self.version@,
            notes: self.notes@,
            tag: self.tag@,
            depth: self.depth,
            create: unit_opt(self.create),
            page: self.page,
            newer: self.newer,
            created: unit_opt(self.created),
        }
    }
}

pub open spec fn hex(c: char) -> bool {
    ('0' <= c <= '9') || ('a' <= c <= 'f') || ('A' <= c <= 'F')
}

/// Whether `sha` names a Git object: 40 or 64 hexadecimal digits.
pub open spec fn object_name(sha: Seq<char>) -> bool {
    (sha.len() == 40 || sha.len() == 64) && forall|i: int| 0 <= i < sha.len() ==> #[trigger] hex(sha[i])
}

/// What one object of a tag lookup gives: the commit, none (no tag at all), the next
/// object to follow, or an error.
pub enum TagStep {
    Resolved(Option<Seq<char>>),
    Follow(Seq<char>),
    Failed(Seq<char>),
}

pub open spec fn tag_step(depth: u8, answer: Result<Option<(Option<Seq<char>>, Option<Seq<char>>)>, Seq<char>>) -> TagStep {
    match answer {
        Err(e) => TagStep::Failed(e),
        Ok(None) => if depth == 0 {
            TagStep::Resolved(None)
        } else {
            TagStep::Failed("tag anotada ausente."@)
        },
        Ok(Some((sha, kind))) => if depth >= 8 {
            TagStep::Failed("encadeamento de tags excedeu o limite."@)
        } else {
            match sha {
                None => TagStep::Failed("tag sem SHA."@),
                Some(s) => if !object_name(s) {
                    TagStep::Failed("SHA inválido na tag."@)
                } else if kind == Some("commit"@) {
                    TagStep::Resolved(Some(s))
                } else if kind == Some("tag"@) {
                    TagStep::Follow(s)
                } else {
                    TagStep::Failed("a tag não aponta para um commit."@)
                },
            }
        },
    }
}

/// Whether the published version `v` (without pre-release or build) comes after
/// `version` in semantic-version order.
pub open spec fn after(v: (u64, u64, u64, Seq<char>, Seq<char>), version: (u64, u64, u64, Seq<char>, Seq<char>)) -> bool {
    crate::release::numbers_before((version.0, version.1, version.2), (v.0, v.1, v.2)) || (v.0 == version.0 && v.1
        == version.1 && v.2 == version.2 && version.3.len() > 0)
}

/// Whether a release is published with a version after `version`.
pub open spec fn newer_release(f: ReleaseFields, version: (u64, u64, u64, Seq<char>, Seq<char>)) -> bool {
    match published_version(f) {
        Some(v) => after(v, version),
        None => false,
    }
}

/// Whether a page holds a published release after `version`.
pub open spec fn newer_on(page: Seq<ReleaseFields>, version: (u64, u64, u64, Seq<char>, Seq<char>)) -> bool {
    exists|i: int| 0 <= i < page.len() && #[trigger] newer_release(page[i], version)
}

pub open spec fn tag_of(version: (u64, u64, u64, Seq<char>, Seq<char>)) -> Seq<char> {
    "v"@ + crate::version::version_text(version)
}

pub open spec fn page_path(page: u64) -> Seq<char> {
    "releases?per_page=100&page="@ + crate::version::decimal(page as nat)
}

pub open spec fn conflicting_tag_error(tag: Seq<char>) -> Seq<char> {
    "a tag "@ + tag + " já aponta para outro SHA; nada será sobrescrito."@
}

pub open spec fn at(s: PublishView, stage: PublishStage) -> PublishView {
    PublishView { stage, ..s }
}

pub open spec fn stop(s: PublishView, e: Seq<char>) -> (PublishView, PublishActionView) {
    (at(s, PublishStage::Done), PublishActionView::Finish(Err(e)))
}

/// The end of a publication on an existing release: it must be the one to publish.
pub open spec fn settle(s: PublishView, release: ReleaseFields) -> (PublishView, PublishActionView) {
    if release_matches(release, s.tag, s.notes) {
        (at(s, PublishStage::Done), PublishActionView::Finish(Ok(release)))
    } else {
        stop(s, diverging_release_error(s.tag))
    }
}

/// One step of publishing the release of `version` at `sha` with `notes`: the tag
/// `v<version>` must name `sha` or be created there and confirmed (a tag on another commit
/// is never moved); an existing release must match exactly; otherwise the release is
/// created, marked latest only when no published release is newer, and confirmed. A
/// request whose answer was lost is reconciled by reading the state again.
pub open spec fn publish_next(s: PublishView, e: PublishEventView) -> (PublishView, PublishActionView) {
    match (s.stage, e) {
        (PublishStage::FirstTag, PublishEventView::Tag(r)) => match tag_step(s.depth, r) {
            TagStep::Failed(x) => stop(s, x),
            TagStep::Follow(next) => (
                PublishView { depth: (s.depth + 1) as u8, ..s },
                PublishActionView::GetTag("git/tags/"@ + next),
            ),
            TagStep::Resolved(Some(existing)) => if existing != s.sha {
                stop(s, conflicting_tag_error(s.tag))
            } else {
                (at(s, PublishStage::Existing), PublishActionView::GetRelease("releases/tags/"@ + s.tag))
            },
            TagStep::Resolved(None) => (
                at(s, PublishStage::Created),
                PublishActionView::PostRef("refs/tags/"@ + s.tag, s.sha),
            ),
        },
        (PublishStage::Created, PublishEventView::Posted(r)) => (
            PublishView { stage: PublishStage::ConfirmTag, create: Some(r), depth: 0, ..s },
            PublishActionView::GetTag("git/ref/tags/"@ + s.tag),
        ),
        (PublishStage::ConfirmTag, PublishEventView::Tag(r)) => match tag_step(s.depth, r) {
            TagStep::Failed(x) => stop(s, x),
            TagStep::Follow(next) => (
                PublishView { depth: (s.depth + 1) as u8, ..s },
                PublishActionView::GetTag("git/tags/"@ + next),
            ),
            TagStep::Resolved(found) => if found != Some(s.sha) {
                match s.create {
                    Some(Err(x)) => stop(s, x),
                    _ => stop(s, "a tag não foi confirmada no SHA aprovado."@),
                }
            } else {
                (at(s, PublishStage::Existing), PublishActionView::GetRelease("releases/tags/"@ + s.tag))
            },
        },
        (PublishStage::Existing, PublishEventView::Release(r)) => match r {
            Err(x) => stop(s, x),
            Ok(Some(release)) => settle(s, release),
            Ok(None) => (
                PublishView { stage: PublishStage::Page, page: 1, newer: false, ..s },
                PublishActionView::GetPage(page_path(1)),
            ),
        },
        (PublishStage::Page, PublishEventView::Page(r)) => match r {
            Err(x) => stop(s, x),
            Ok(None) => stop(s, "não foi possível listar releases; confira a autenticação do gh."@),
            Ok(Some(None)) => stop(s, "lista de releases inválida."@),
            Ok(Some(Some(entries))) => {
                let newer = s.newer || newer_on(entries, s.version);
                if entries.len() < 100 {
                    (
                        PublishView { stage: PublishStage::Posted, newer, ..s },
                        PublishActionView::PostRelease(s.tag, s.sha, s.notes, !newer),
                    )
                } else if s.page >= 1000 {
                    stop(s, "lista de releases excedeu o limite de paginação."@)
                } else {
                    (
                        PublishView { page: (s.page + 1) as u64, newer, ..s },
                        PublishActionView::GetPage(page_path((s.page + 1) as u64)),
                    )
                }
            },
        },
        (PublishStage::Posted, PublishEventView::Posted(r)) => (
            PublishView { stage: PublishStage::Confirm, created: Some(r), ..s },
            PublishActionView::GetRelease("releases/tags/"@ + s.tag),
        ),
        (PublishStage::Confirm, PublishEventView::Release(r)) => match r {
            Err(x) => stop(s, x),
            Ok(Some(release)) => settle(s, release),
            Ok(None) => match s.created {
                Some(Err(x)) => stop(s, x),
                _ => stop(s, "a release ainda não foi confirmada. Reexecute o job de publicação."@),
            },
        },
        _ => (s, PublishActionView::Finish(Err(Seq::empty()))),
    }
}

/// A publication never moves a tag, never replaces a release, and never makes an older
/// release the latest: a tag is created only where the lookup found none, at the approved
/// commit, and a tag on another commit ends the publication; a release is created only
/// after the listing of releases, which starts only when the tag has no release, and an
/// existing release is accepted only when it matches; a release is marked latest only when
/// no listed release is newer.
pub proof fn lemma_publication_never_overwrites(s: PublishView, e: PublishEventView)
    ensures
        publish_next(s, e).1 is PostRef ==> s.stage is FirstTag && (e matches PublishEventView::Tag(a) && tag_step(s.depth, a)
            == TagStep::Resolved(None)) && publish_next(s, e).1 == PublishActionView::PostRef("refs/tags/"@ + s.tag, s.sha),
        s.stage is FirstTag && (e matches PublishEventView::Tag(a) && tag_step(s.depth, a) matches TagStep::Resolved(Some(x))
            && x != s.sha) ==> publish_next(s, e).1 == PublishActionView::Finish(Err(conflicting_tag_error(s.tag))),
        publish_next(s, e).1 is PostRelease ==> s.stage is Page,
        publish_next(s, e).0.stage is Page ==> s.stage is Page || (s.stage is Existing && e
            == PublishEventView::Release(Ok(None))),
        s.stage is Existing && (e matches PublishEventView::Release(Ok(Some(release))) && !release_matches(release, s.tag, s.notes))
            ==> publish_next(s, e).1 == PublishActionView::Finish(Err(diverging_release_error(s.tag))),
        publish_next(s, e).1 matches PublishActionView::PostRelease(_, _, _, latest) ==> (latest ==> !s.newer && (e matches
            PublishEventView::Page(Ok(Some(Some(entries)))) && !newer_on(entries, s.version))),
{
}

pub open spec fn answers(stage: PublishStage, event: PublishEventView) -> bool {
    match stage {
        PublishStage::FirstTag | PublishStage::ConfirmTag => event is Tag,
        PublishStage::Created | PublishStage::Posted => event is Posted,
        PublishStage::Existing | PublishStage::Confirm => event is Release,
        PublishStage::Page => event is Page,
        PublishStage::Done => false,
    }
}

pub open spec fn well_formed(s: PublishView) -> bool {
    &&& s.depth <= 8
    &&& 1 <= s.page <= 1000
    &&& (s.stage is ConfirmTag ==> s.create is Some)
}

fn object_name_chars(sha: &String) -> (r: bool)
    ensures
        r == object_name(sha@),
{
    let c = chars_of(sha.as_str());
    if c.len() != 40 && c.len() != 64 {
        return false;
    }
    let mut i: usize = 0;
    while i < c.len()
        invariant
            i <= c@.len(),
            c@ == sha@,
            forall|k: int| 0 <= k < i ==> #[trigger] hex(c@[k]),
        decreases c.len() - i,
    {
        let x = c[i];
        if !(('0' <= x && x <= '9') || ('a' <= x && x <= 'f') || ('A' <= x && x <= 'F')) {
            assert(!hex(c@[i as int]));
            return false;
        }
        i += 1;
    }
    true
}

fn is_text(o: &Option<String>, s: &str) -> (r: bool)
    ensures
        r == (opt_view(*o) == Some(s@)),
{
    opt_is(o, s)
}

fn joined(a: &str, b: &str) -> (r: String)
    ensures
        r@ == a@ + b@,
{
    let mut x = String::from_str(a);
    x.append(b);
    x
}

fn page_text(page: u64) -> (r: String)
    ensures
        r@ == page_path(page),
{
    let mut digits: Vec<char> = Vec::new();
    crate::version::push_decimal(&mut digits, page);
    assert(digits@.subrange(0, digits@.len() as int) == digits@);
    joined("releases?per_page=100&page=", string_of(&digits, 0, digits.len()).as_str())
}

fn after_exec(v: &Version, version: &Version) -> (r: bool)
    ensures
        r == after(v@, version@),
{
    version.major < v.major || (version.major == v.major && (version.minor < v.minor || (version.minor == v.minor
        && version.patch < v.patch))) || (v.major == version.major && v.minor == version.minor && v.patch == version.patch
        && !version.pre.as_str().is_empty())
}

fn newer_on_page(entries: &Vec<ReleaseFields>, current: &Version) -> (r: bool)
    ensures
        r == newer_on(entries@, current@),
{
    let mut i: usize = 0;
    while i < entries.len()
        invariant
            i <= entries@.len(),
            forall|k: int| 0 <= k < i ==> !#[trigger] newer_release(entries@[k], current@),
        decreases entries.len() - i,
    {
        match version(&entries[i]) {
            Some(v) => {
                if after_exec(&v, current) {
                    assert(newer_release(entries@[i as int], current@));
                    return true;
                }
            },
            None => {},
        }
        i += 1;
    }
    false
}

/// What one object of a tag lookup gives, in library values.
enum TagOutcome {
    Resolved(Option<String>),
    Follow(String),
    Failed(String),
}

spec fn outcome_view(o: TagOutcome) -> TagStep {
    match o {
        TagOutcome::Resolved(Some(s)) => TagStep::Resolved(Some(s@)),
        TagOutcome::Resolved(None) => TagStep::Resolved(None),
        TagOutcome::Follow(s) => TagStep::Follow(s@),
        TagOutcome::Failed(e) => TagStep::Failed(e@),
    }
}

fn tag_outcome(depth: u8, answer: Result<Option<TagObject>, String>) -> (r: TagOutcome)
    ensures
        outcome_view(r) == tag_step(depth, match answer {
            Ok(Some(o)) => Ok(Some((opt_view(o.sha), opt_view(o.kind)))),
            Ok(None) => Ok(None),
            Err(e) => Err(e@),
        }),
{
    match answer {
        Err(e) => TagOutcome::Failed(e),
        Ok(None) => if depth == 0 {
            TagOutcome::Resolved(None)
        } else {
            TagOutcome::Failed(String::from_str("tag anotada ausente."))
        },
        Ok(Some(o)) => {
            if depth >= 8 {
                return TagOutcome::Failed(String::from_str("encadeamento de tags excedeu o limite."));
            }
            let sha = match o.sha {
                None => return TagOutcome::Failed(String::from_str("tag sem SHA.")),
                Some(s) => s,
            };
            if !object_name_chars(&sha) {
                return TagOutcome::Failed(String::from_str("SHA inválido na tag."));
            }
            if is_text(&o.kind, "commit") {
                TagOutcome::Resolved(Some(sha))
            } else if is_text(&o.kind, "tag") {
                TagOutcome::Follow(sha)
            } else {
                TagOutcome::Failed(String::from_str("a tag não aponta para um commit."))
            }
        },
    }
}

impl Publish {
    /// Starts publishing the release of `version` at the commit `sha` with `notes`: the
    /// first request looks up the tag `v<version>`.
    pub fn start(sha: String, version: Version, notes: String) -> (r: (Publish, PublishAction))
        ensures
            r.0@ == (PublishView {
                stage: PublishStage::FirstTag,
                sha: sha@,
                version: version@,
                notes: notes@,
                tag: tag_of(version@),
                depth: 0,
                create: None,
                page: 1,
                newer: false,
                created: None,
            }),
            r.1@ == PublishActionView::GetTag("git/ref/tags/"@ + tag_of(version@)),
            well_formed(r.0@),
    {
        let tag = joined("v", version.text().as_str());
        let path = joined("git/ref/tags/", tag.as_str());
        (
            Publish { stage: PublishStage::FirstTag, sha, version, notes, tag, depth: 0, create: None, page: 1, newer: false, created: None },
            PublishAction::GetTag(path),
        )
    }

    /// Whether `event` answers the request that the publication waits for.
    pub fn accepts(&self, event: &PublishEvent) -> (r: bool)
        ensures
            r == answers(self.stage, event@),
    {
        match self.stage {
            PublishStage::FirstTag | PublishStage::ConfirmTag => matches!(event, PublishEvent::Tag(_)),
            PublishStage::Created | PublishStage::Posted => matches!(event, PublishEvent::Posted(_)),
            PublishStage::Existing | PublishStage::Confirm => matches!(event, PublishEvent::Release(_)),
            PublishStage::Page => matches!(event, PublishEvent::Page(_)),
            PublishStage::Done => false,
        }
    }

    fn stop_with(&mut self, e: String) -> (a: PublishAction)
        ensures
            final(self)@ == at(old(self)@, PublishStage::Done),
            a@ == PublishActionView::Finish(Err(e@)),
    {
        self.stage = PublishStage::Done;
        PublishAction::Finish(Err(e))
    }

    fn settle_with(&mut self, release: ReleaseFields) -> (a: PublishAction)
        ensures
            (final(self)@, a@) == settle(old(self)@, release),
    {
        match verify_release(&release, self.tag.as_str(), self.notes.as_str()) {
            Err(e) => self.stop_with(e),
            Ok(()) => {
                self.stage = PublishStage::Done;
                PublishAction::Finish(Ok(release))
            },
        }
    }

    /// Takes the answer to the last request and gives the next one (see `publish_next`).
    pub fn advance(&mut self, event: PublishEvent) -> (a: PublishAction)
        requires
            well_formed(old(self)@),
            answers(old(self).stage, event@),
        ensures
            (final(self)@, a@) == publish_next(old(self)@, event@),
            well_formed(final(self)@),
    {
        match event {
            PublishEvent::Tag(r) => {
                let confirming = match self.stage {
                    PublishStage::ConfirmTag => true,
                    _ => false,
                };
                match tag_outcome(self.depth, r) {
                    TagOutcome::Failed(x) => self.stop_with(x),
                    TagOutcome::Follow(next) => {
                        self.depth = self.depth + 1;
                        PublishAction::GetTag(joined("git/tags/", next.as_str()))
                    },
                    TagOutcome::Resolved(found) => {
                        let same = match &found {
                            Some(f) => crate::text::same_chars(&chars_of(f.as_str()), &chars_of(self.sha.as_str())),
                            None => false,
                        };
                        if !confirming {
                            match found {
                                Some(_) => {
                                    if !same {
                                        let mut e = String::from_str("a tag ");
                                        e.append(self.tag.as_str());
                                        e.append(" já aponta para outro SHA; nada será sobrescrito.");
                                        return self.stop_with(e);
                                    }
                                    self.stage = PublishStage::Existing;
                                    PublishAction::GetRelease(joined("releases/tags/", self.tag.as_str()))
                                },
                                None => {
                                    self.stage = PublishStage::Created;
                                    PublishAction::PostRef { reference: joined("refs/tags/", self.tag.as_str()), sha: self.sha.clone() }
                                },
                            }
                        } else {
                            if !same {
                                let e = match &self.create {
                                    Some(Err(x)) => x.clone(),
                                    _ => String::from_str("a tag não foi confirmada no SHA aprovado."),
                                };
                                return self.stop_with(e);
                            }
                            self.stage = PublishStage::Existing;
                            PublishAction::GetRelease(joined("releases/tags/", self.tag.as_str()))
                        }
                    },
                }
            },
            PublishEvent::Posted(r) => {
                match self.stage {
                    PublishStage::Created => {
                        self.create = Some(r);
                        self.depth = 0;
                        self.stage = PublishStage::ConfirmTag;
                        PublishAction::GetTag(joined("git/ref/tags/", self.tag.as_str()))
                    },
                    _ => {
                        self.created = Some(r);
                        self.stage = PublishStage::Confirm;
                        PublishAction::GetRelease(joined("releases/tags/", self.tag.as_str()))
                    },
                }
            },
            PublishEvent::Release(r) => {
                let confirming = match self.stage {
                    PublishStage::Confirm => true,
                    _ => false,
                };
                match r {
                    Err(x) => self.stop_with(x),
                    Ok(Some(release)) => self.settle_with(release),
                    Ok(None) => {
                        if confirming {
                            let e = match &self.created {
                                Some(Err(x)) => x.clone(),
                                _ => String::from_str("a release ainda não foi confirmada. Reexecute o job de publicação."),
                            };
                            return self.stop_with(e);
                        }
                        self.page = 1;
                        self.newer = false;
                        self.stage = PublishStage::Page;
                        PublishAction::GetPage(page_text(1))
                    },
                }
            },
            PublishEvent::Page(r) => match r {
                Err(x) => self.stop_with(x),
                Ok(None) => self.stop_with(String::from_str("não foi possível listar releases; confira a autenticação do gh.")),
                Ok(Some(None)) => self.stop_with(String::from_str("lista de releases inválida.")),
                Ok(Some(Some(entries))) => {
                    let newer = self.newer || newer_on_page(&entries, &self.version);
                    if entries.len() < 100 {
                        self.newer = newer;
                        self.stage = PublishStage::Posted;
                        return PublishAction::PostRelease {
                            tag: self.tag.clone(),
                            sha: self.sha.clone(),
                            notes: self.notes.clone(),
                            latest: !newer,
                        };
                    }
                    if self.page >= 1000 {
                        return self.stop_with(String::from_str("lista de releases excedeu o limite de paginação."));
                    }
                    self.page = self.page + 1;
                    self.newer = newer;
                    PublishAction::GetPage(page_text(self.page))
                },
            },
        }
    }
}

/// What the library reads of an asset of a release: its `name` and `size`.
#[derive(Debug)]
pub struct AssetFields {
    pub name: Option<String>,
    pub size: Option<u64>,
}

pub open spec fn asset_size_of(listing: Option<Option<Seq<AssetFields>>>, name: Seq<char>) -> Result<Option<u64>, Seq<char>>
    decreases (match listing {
        Some(Some(a)) => a.len(),
        _ => 0,
    }),
{
    match listing {
        None => Err("não foi possível listar os assets da release."@),
        Some(None) => Err("lista de assets inválida."@),
        Some(Some(assets)) => if assets.len() == 0 {
            Ok(None)
        } else if opt_view(assets[0].name) == Some(name) {
            match assets[0].size {
                Some(n) => Ok(Some(n)),
                None => Err("asset sem tamanho."@),
            }
        } else {
            asset_size_of(Some(Some(assets.drop_first())), name)
        },
    }
}

/// The size of the asset `name` of a release, from GitHub's list of its assets (`None`
/// where GitHub answered 404, `Some(None)` where the answer is not a list).
pub fn asset_size(listing: Option<Option<Vec<AssetFields>>>, name: &str) -> (r: Result<Option<u64>, String>)
    ensures
        match r {
            Ok(n) => asset_size_of(match listing {
                Some(Some(v)) => Some(Some(v@)),
                Some(None) => Some(None),
                None => None,
            }, name@) == Ok::<Option<u64>, Seq<char>>(n),
            Err(e) => asset_size_of(match listing {
                Some(Some(v)) => Some(Some(v@)),
                Some(None) => Some(None),
                None => None,
            }, name@) == Err::<Option<u64>, Seq<char>>(e@),
        },
{
    let assets = match listing {
        None => return Err(String::from_str("não foi possível listar os assets da release.")),
        Some(None) => return Err(String::from_str("lista de assets inválida.")),
        Some(Some(a)) => a,
    };
    let ghost all = assets@;
    let mut i: usize = 0;
    assert(all.skip(0) == all);
    while i < assets.len()
        invariant
            i <= all.len(),
            all == assets@,
            match listing {
                Some(Some(v)) => v@ == all,
                _ => false,
            },
            asset_size_of(Some(Some(all)), name@) == asset_size_of(Some(Some(all.skip(i as int))), name@),
        decreases assets.len() - i,
    {
        let ghost rest = all.skip(i as int);
        assert(rest[0] == all[i as int]);
        assert(rest.drop_first() == all.skip(i + 1));
        if is_text(&assets[i].name, name) {
            return match assets[i].size {
                Some(n) => Ok(Some(n)),
                None => Err(String::from_str("asset sem tamanho.")),
            };
        }
        i += 1;
    }
    assert(all.skip(i as int) =~= Seq::<AssetFields>::empty());
    Ok(None)
}

pub open spec fn empty_asset_error(name: Seq<char>) -> Seq<char> {
    "asset "@ + name + " está vazio."@
}

pub open spec fn other_size_error(name: Seq<char>) -> Seq<char> {
    "asset "@ + name + " já existe com outro tamanho; nada será sobrescrito."@
}

pub open spec fn unconfirmed_asset_error(name: Seq<char>) -> Seq<char> {
    "asset "@ + name + " não foi confirmado na release."@
}

pub open spec fn invalid_asset_name_error(path: Seq<char>) -> Seq<char> {
    "nome de asset inválido: "@ + path + "."@
}

/// The name of an asset: the file name of its path (`None` when it has none in UTF-8),
/// which must not be empty nor hold `#`.
pub fn asset_name(file_name: Option<&str>, path: &str) -> (r: Result<String, String>)
    ensures
        match file_name {
            Some(n) => if n@.len() > 0 && !crate::text::has_char(n@, '#') {
                r matches Ok(x) && x@ == n@
            } else {
                r matches Err(e) && e@ == invalid_asset_name_error(path@)
            },
            None => r matches Err(e) && e@ == invalid_asset_name_error(path@),
        },
{
    match file_name {
        Some(n) => {
            let c = chars_of(n);
            if c.len() > 0 && !crate::text::has_char_in(&c, '#') {
                return Ok(String::from_str(n));
            }
        },
        None => {},
    }
    let mut e = String::from_str("nome de asset inválido: ");
    e.append(path);
    e.append(".");
    Err(e)
}

/// Refuses an empty asset.
pub fn asset_nonempty(name: &str, size: u64) -> (r: Result<(), String>)
    ensures
        r is Ok <==> size > 0,
        r matches Err(e) ==> e@ == empty_asset_error(name@),
{
    if size == 0 {
        let mut e = String::from_str("asset ");
        e.append(name);
        e.append(" está vazio.");
        return Err(e);
    }
    Ok(())
}

/// Whether an asset of `size` bytes must be uploaded, given the size of the asset of that
/// name that the release holds (or the error of reading it): one of the same size is
/// already there, one of another size is never replaced.
pub open spec fn upload_plan(name: Seq<char>, size: u64, existing: Result<Option<u64>, Seq<char>>) -> Result<bool, Seq<char>> {
    match existing {
        Err(e) => Err(e),
        Ok(None) => Ok(true),
        Ok(Some(n)) => if n == size {
            Ok(false)
        } else {
            Err(other_size_error(name))
        },
    }
}

/// Uploading assets is idempotent and never replaces one: once the release holds an asset
/// of that name and size (as after a confirmed upload), the same upload is planned as
/// nothing to do; an asset of that name with another size is refused; only a missing one
/// is uploaded.
pub proof fn lemma_uploads_are_idempotent(name: Seq<char>, size: u64, other: u64)
    ensures
        upload_plan(name, size, Ok(Some(size))) == Ok::<bool, Seq<char>>(false),
        other != size ==> upload_plan(name, size, Ok(Some(other))) == Err::<bool, Seq<char>>(other_size_error(name)),
        upload_plan(name, size, Ok(None)) == Ok::<bool, Seq<char>>(true),
{
}

/// Whether an asset of `size` bytes must be uploaded (see `upload_plan`).
pub fn asset_plan(name: &str, size: u64, existing: Result<Option<u64>, String>) -> (r: Result<bool, String>)
    ensures
        match r {
            Ok(b) => upload_plan(name@, size, match existing {
                Ok(o) => Ok(o),
                Err(e) => Err(e@),
            }) == Ok::<bool, Seq<char>>(b),
            Err(e) => upload_plan(name@, size, match existing {
                Ok(o) => Ok(o),
                Err(e) => Err(e@),
            }) == Err::<bool, Seq<char>>(e@),
        },
        match existing {
            Err(e) => r == Err::<bool, String>(e),
            Ok(None) => r == Ok::<bool, String>(true),
            Ok(Some(n)) => if n == size {
                r == Ok::<bool, String>(false)
            } else {
                r matches Err(e) && e@ == other_size_error(name@)
            },
        },
{
    match existing? {
        None => Ok(true),
        Some(n) => {
            if n == size {
                Ok(false)
            } else {
                let mut e = String::from_str("asset ");
                e.append(name);
                e.append(" já existe com outro tamanho; nada será sobrescrito.");
                Err(e)
            }
        },
    }
}

/// Requires an uploaded asset to show in the release with its size.
pub fn asset_confirmed(name: &str, size: u64, after: Result<Option<u64>, String>) -> (r: Result<(), String>)
    ensures
        match after {
            Err(e) => r == Err::<(), String>(e),
            Ok(found) => if found == Some(size) {
                r is Ok
            } else {
                r matches Err(e) && e@ == unconfirmed_asset_error(name@)
            },
        },
{
    match after? {
        Some(n) => {
            if n == size {
                return Ok(());
            }
        },
        None => {},
    }
    let mut e = String::from_str("asset ");
    e.append(name);
    e.append(" não foi confirmado na release.");
    Err(e)
}

/// The identifier of a published release, which its assets go under.
pub fn release_id(release: &ReleaseFields) -> (r: Result<u64, String>)
    ensures
        match release.id {
            Some(n) => r == Ok::<u64, String>(n),
            None => r matches Err(e) && e@ == "release sem identificador."@,
        },
{
    match release.id {
        Some(n) => Ok(n),
        None => Err(String::from_str("release sem identificador.")),
    }
}

/// A tag lookup on its own: the commit that a release tag names, following annotated tags.
#[derive(Debug)]
pub struct TagLookup {
    pub depth: u8,
}

#[derive(Debug)]
pub enum LookupStep {
    /// `GET` this path and answer with the object it holds (`None` for 404).
    Get(String),
    /// The commit (`None` when there is no such tag), or the error.
    Done(Result<Option<String>, String>),
}

pub enum LookupStepView {
    Get(Seq<char>),
    Done(Result<Option<Seq<char>>, Seq<char>>),
}

pub open spec fn lookup_view(s: LookupStep) -> LookupStepView {
    match s {
        LookupStep::Get(p) => LookupStepView::Get(p@),
        LookupStep::Done(Ok(Some(c))) => LookupStepView::Done(Ok(Some(c@))),
        LookupStep::Done(Ok(None)) => LookupStepView::Done(Ok(None)),
        LookupStep::Done(Err(e)) => LookupStepView::Done(Err(e@)),
    }
}

/// One step of a tag lookup at `depth` objects followed.
pub open spec fn lookup_next(depth: u8, answer: Result<Option<(Option<Seq<char>>, Option<Seq<char>>)>, Seq<char>>) -> (u8, LookupStepView) {
    match tag_step(depth, answer) {
        TagStep::Failed(x) => (depth, LookupStepView::Done(Err(x))),
        TagStep::Follow(next) => ((depth + 1) as u8, LookupStepView::Get("git/tags/"@ + next)),
        TagStep::Resolved(found) => (depth, LookupStepView::Done(Ok(found))),
    }
}

impl TagLookup {
    /// Starts looking up the commit of `tag`; the first request reads its reference.
    pub fn start(tag: &str) -> (r: (TagLookup, String))
        ensures
            r.0.depth == 0,
            r.1@ == "git/ref/tags/"@ + tag@,
    {
        (TagLookup { depth: 0 }, joined("git/ref/tags/", tag))
    }

    /// Takes the object that the last request read and gives the next step.
    pub fn advance(&mut self, answer: Result<Option<TagObject>, String>) -> (r: LookupStep)
        requires
            old(self).depth <= 8,
        ensures
            (final(self).depth, lookup_view(r)) == lookup_next(old(self).depth, match answer {
                Ok(Some(o)) => Ok(Some((opt_view(o.sha), opt_view(o.kind)))),
                Ok(None) => Ok(None),
                Err(e) => Err(e@),
            }),
            final(self).depth <= 8,
    {
        match tag_outcome(self.depth, answer) {
            TagOutcome::Failed(x) => LookupStep::Done(Err(x)),
            TagOutcome::Follow(next) => {
                self.depth = self.depth + 1;
                LookupStep::Get(joined("git/tags/", next.as_str()))
            },
            TagOutcome::Resolved(found) => LookupStep::Done(Ok(found)),
        }
    }
}

/// A published release that may be the base of the next one: its version and tag.
#[derive(Debug)]
pub struct Candidate {
    pub version: Version,
    pub tag: String,
}

pub open spec fn candidate_view(c: Candidate) -> ((u64, u64, u64, Seq<char>, Seq<char>), Seq<char>) {
    (c.version@, c.tag@)
}

/// The candidates among `releases`, in their order: the published releases, each with its
/// version and tag.
pub open spec fn candidates(releases: Seq<ReleaseFields>) -> Seq<((u64, u64, u64, Seq<char>, Seq<char>), Seq<char>)>
    decreases releases.len(),
{
    if releases.len() == 0 {
        Seq::empty()
    } else {
        let f = releases.last();
        candidates(releases.drop_last()) + match published_version(f) {
            Some(v) => seq![(v, opt_view(f.tag_name).unwrap())],
            None => Seq::empty(),
        }
    }
}

/// A draft or a pre-release among the releases adds no candidate and is never newer than
/// any version: the candidates are those of the other releases.
pub proof fn lemma_unpublished_releases_add_nothing(
    releases: Seq<ReleaseFields>,
    f: ReleaseFields,
    version: (u64, u64, u64, Seq<char>, Seq<char>),
)
    requires
        f.draft != Some(false) || f.prerelease != Some(false),
    ensures
        candidates(releases.push(f)) == candidates(releases),
        !newer_release(f, version),
{
    let r = releases.push(f);
    assert(r.drop_last() =~= releases);
    assert(r.last() == f);
    assert(candidates(releases) + Seq::<((u64, u64, u64, Seq<char>, Seq<char>), Seq<char>)>::empty() =~= candidates(releases));
}

pub open spec fn version_numbers(v: (u64, u64, u64, Seq<char>, Seq<char>)) -> (u64, u64, u64) {
    (v.0, v.1, v.2)
}

/// Whether the candidates come from the newest version to the oldest.
pub open spec fn newest_first(s: Seq<((u64, u64, u64, Seq<char>, Seq<char>), Seq<char>)>) -> bool {
    forall|i: int, j: int|
        0 <= i < j < s.len() ==> !crate::release::numbers_before(version_numbers(#[trigger] s[i].0), version_numbers(#[trigger] s[j].0))
}

fn before_exec(a: &Version, b: &Version) -> (r: bool)
    ensures
        r == crate::release::numbers_before(version_numbers(a@), version_numbers(b@)),
{
    a.major < b.major || (a.major == b.major && (a.minor < b.minor || (a.minor == b.minor && a.patch < b.patch)))
}

/// The published releases among `releases`, newest first: the order in which they are
/// tried as the base of the next release.
pub fn published_order(releases: &Vec<ReleaseFields>) -> (r: Vec<Candidate>)
    ensures
        r@.map_values(|c: Candidate| candidate_view(c)).to_multiset() == candidates(releases@).to_multiset(),
        newest_first(r@.map_values(|c: Candidate| candidate_view(c))),
{
    let mut out: Vec<Candidate> = Vec::new();
    let mut i: usize = 0;
    assert(out@.map_values(|c: Candidate| candidate_view(c)) =~= Seq::empty());
    assert(releases@.take(0) =~= Seq::<ReleaseFields>::empty());
    while i < releases.len()
        invariant
            i <= releases@.len(),
            out@.map_values(|c: Candidate| candidate_view(c)).to_multiset() == candidates(releases@.take(i as int)).to_multiset(),
            newest_first(out@.map_values(|c: Candidate| candidate_view(c))),
        decreases releases.len() - i,
    {
        let ghost before = out@.map_values(|c: Candidate| candidate_view(c));
        let f = &releases[i];
        assert(releases@.take(i + 1).drop_last() =~= releases@.take(i as int));
        assert(releases@.take(i + 1).last() == releases@[i as int]);
        match version(f) {
            None => {
                assert(candidates(releases@.take(i + 1)) =~= candidates(releases@.take(i as int)));
            },
            Some(v) => {
                let tag = match &f.tag_name {
                    Some(t) => t.clone(),
                    None => String::new(),
                };
                let mut p: usize = 0;
                while p < out.len() && !before_exec(&out[p].version, &v)
                    invariant
                        p <= out@.len(),
                        out@.map_values(|c: Candidate| candidate_view(c)) == before,
                        forall|k: int| 0 <= k < p ==> !crate::release::numbers_before(version_numbers(#[trigger] before[k].0), version_numbers(v@)),
                    decreases out.len() - p,
                {
                    p += 1;
                }
                let c = Candidate { version: v, tag };
                let ghost item = candidate_view(c);
                out.insert(p, c);
                assert(out@.map_values(|c: Candidate| candidate_view(c)) =~= before.insert(p as int, item));
                let ghost after = before.insert(p as int, item);
                assert(candidates(releases@.take(i + 1)) =~= candidates(releases@.take(i as int)).push(item));
                proof {
                    vstd::seq_lib::to_multiset_insert(before, p as int, item);
                    vstd::seq_lib::to_multiset_build(candidates(releases@.take(i as int)), item);
                }
                assert(newest_first(after)) by {
                    assert forall|a: int, b: int| 0 <= a < b < after.len() implies !crate::release::numbers_before(
                        version_numbers(#[trigger] after[a].0),
                        version_numbers(#[trigger] after[b].0),
                    ) by {
                        if p < before.len() {
                            assert(crate::release::numbers_before(version_numbers(before[p as int].0), version_numbers(item.0)));
                        }
                        if a < p && b == p {
                            assert(after[a] == before[a]);
                        } else if a < p && b > p {
                            assert(after[a] == before[a]);
                            assert(after[b] == before[b - 1]);
                        } else if a == p && b > p {
                            assert(after[b] == before[b - 1]);
                            if p < b - 1 {
                                assert(!crate::release::numbers_before(version_numbers(before[p as int].0), version_numbers(before[b - 1].0)));
                            }
                        } else if a > p {
                            assert(after[a] == before[a - 1]);
                            assert(after[b] == before[b - 1]);
                        } else {
                            assert(after[a] == before[a]);
                            assert(after[b] == before[b]);
                        }
                    }
                }
            },
        }
        i += 1;
    }
    assert(releases@.take(releases@.len() as int) =~= releases@);
    out
}

} // verus!
