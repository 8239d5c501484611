//! The preparation of a release when a change is committed, as the decisions between the
//! reads and writes it makes: the caller performs each action (a file of a revision, a Git
//! read, the latest published base, a parse of a manifest, a normalized tree, a hash, a
//! diff, the generation of notes, the tree that holds the release) and hands back what
//! came of it.
use vstd::prelude::*;
use vstd::string::*;
use crate::git::{full_history_answer, shallow_error, strings_view, Repository};
use crate::message::text_result;
use crate::release::{
    file_settings, fingerprint_data, fingerprint_json, gate, manifest, next_version, next_version_of,
    opt_result, opt_text, opt_version, opt_view, outdated_error, parent, parent_of, prepare, prepare_gate,
    prepared_log, previous_version, previous_version_of, settings_from_file, supported, Manifest, Prepared,
};
use crate::release_check::{
    args, changelog_path, config_path, copy_text, manifest_path, manifest_verdict, opt_ref, parents_args,
};
use crate::version::{version_text, Version};

verus! {

/// What the preparation asks for next.
#[derive(Debug)]
pub enum PrepareAction {
    /// The text of the file at `path` in `revision` (see `release::file`).
    ReadFile(String, String),
    /// What Git prints for these arguments, as text.
    ReadText(Vec<String>),
    /// What Git prints for these arguments, as bytes.
    ReadBytes(Vec<String>),
    /// The latest published release whose commit is an ancestor of this commit: its tag and
    /// commit.
    LatestPublished(String),
    /// The manifest that this text holds, as JSON.
    ParseManifest(String),
    /// The tree of `revision` without what a release preparation writes.
    Normalized(String),
    /// The identifier that `git hash-object --stdin` gives these bytes of text.
    Hash(String),
    /// The identifier of the empty tree (`git mktree` with no input).
    EmptyTree,
    /// The diff between two trees that may go to the AI (see `git::Repository::diff_between`).
    Diff(String, String),
    /// The text of the notes file at this path (see `provider::read_text`).
    ReadNotes(String),
    /// Notes generated by the AI from this diff.
    Generate(String),
    /// The tree of `revision` with this changelog and this manifest written into it.
    WriteTree(String, String, Manifest),
    /// The end: no release, the prepared release, or why the commit is refused.
    Finish(Result<Option<Prepared>, String>),
}

/// What came of an action.
#[derive(Debug)]
pub enum PrepareEvent {
    File(Result<Option<String>, String>),
    Bytes(Result<Vec<u8>, String>),
    Text(Result<String, String>),
    Published(Result<Option<(String, String)>, String>),
    Manifest(Result<Manifest, String>),
}

/// A manifest as plain values: schema, version, parent, base, base tag, fingerprint,
/// message and notes hash.
pub type ManifestView = (
    u32,
    Seq<char>,
    Seq<char>,
    Option<Seq<char>>,
    Option<Seq<char>>,
    Seq<char>,
    Seq<char>,
    Seq<char>,
);

pub open spec fn manifest_view(m: Manifest) -> ManifestView {
    (m.schema, m.version@, m.parent@, opt_view(m.base), opt_view(m.base_tag), m.fingerprint@, m.message@, m.notes_hash@)
}

pub enum PrepareActionView {
    ReadFile(Seq<char>, Seq<char>),
    ReadText(Seq<Seq<char>>),
    ReadBytes(Seq<Seq<char>>),
    LatestPublished(Seq<char>),
    ParseManifest(Seq<char>),
    Normalized(Seq<char>),
    Hash(Seq<char>),
    EmptyTree,
    Diff(Seq<char>, Seq<char>),
    ReadNotes(Seq<char>),
    Generate(Seq<char>),
    WriteTree(Seq<char>, Seq<char>, ManifestView),
    Finish(Result<Option<(Seq<char>, Seq<char>, Seq<char>)>, Seq<char>>),
}

pub enum PrepareEventView {
    File(Result<Option<Seq<char>>, Seq<char>>),
    Bytes(Result<Seq<u8>, Seq<char>>),
    Text(Result<Seq<char>, Seq<char>>),
    Published(Result<Option<(Seq<char>, Seq<char>)>, Seq<char>>),
    Manifest(Result<Manifest, Seq<char>>),
}

impl View for PrepareAction {
    type V = PrepareActionView;

    open spec fn view(&self) -> PrepareActionView {
        match self {
            PrepareAction::ReadFile(r, p) => PrepareActionView::ReadFile(r@, p@),
            PrepareAction::ReadText(a) => PrepareActionView::ReadText(strings_view(a@)),
            PrepareAction::ReadBytes(a) => PrepareActionView::ReadBytes(strings_view(a@)),
            PrepareAction::LatestPublished(p) => PrepareActionView::LatestPublished(p@),
            PrepareAction::ParseManifest(t) => PrepareActionView::ParseManifest(t@),
            PrepareAction::Normalized(r) => PrepareActionView::Normalized(r@),
            PrepareAction::Hash(t) => PrepareActionView::Hash(t@),
            PrepareAction::EmptyTree => PrepareActionView::EmptyTree,
            PrepareAction::Diff(a, b) => PrepareActionView::Diff(a@, b@),
            PrepareAction::ReadNotes(p) => PrepareActionView::ReadNotes(p@),
            PrepareAction::Generate(d) => PrepareActionView::Generate(d@),
            PrepareAction::WriteTree(r, l, m) => PrepareActionView::WriteTree(r@, l@, manifest_view(*m)),
            PrepareAction::Finish(r) => PrepareActionView::Finish(match r {
                Ok(None) => Ok(None),
                Ok(Some(p)) => Ok(Some((p.tree@, p.version@, p.notes@))),
                Err(e) => Err(e@),
            }),
        }
    }
}

impl View for PrepareEvent {
    type V = PrepareEventView;

    open spec fn view(&self) -> PrepareEventView {
        match self {
            PrepareEvent::File(r) => PrepareEventView::File(opt_result(*r)),
            PrepareEvent::Bytes(r) => PrepareEventView::Bytes(crate::git::bytes_result(*r)),
            PrepareEvent::Text(r) => PrepareEventView::Text(text_result(*r)),
            PrepareEvent::Published(r) => PrepareEventView::Published(match r {
                Ok(Some((t, c))) => Ok(Some((t@, c@))),
                Ok(None) => Ok(None),
                Err(e) => Err(e@),
            }),
            PrepareEvent::Manifest(r) => PrepareEventView::Manifest(match r {
                Ok(m) => Ok(*m),
                Err(e) => Err(e@),
            }),
        }
    }
}

#[derive(Debug, Clone, Copy)]
pub enum PrepareStage {
    Settings,
    History,
    Parent,
    Published,
    ParentManifestFile,
    ParentManifest,
    Content,
    Fingerprint,
    EntryNotes,
    From,
    Diff,
    Generated,
    ExistingLog,
    ParentLog,
    OwnManifestFile,
    OwnManifest,
    NotesHash,
    Tree,
    Done,
}

/// A preparation in progress.
#[derive(Debug)]
pub struct ReleasePrepare {
    pub stage: PrepareStage,
    pub revision: String,
    pub description: String,
    /// The notes file that the user gave, if any.
    pub entry_file: Option<String>,
    pub initial: Version,
    pub parent: String,
    /// The latest published release below the commit: its commit and tag.
    pub base: Option<String>,
    pub base_tag: Option<String>,
    pub parent_manifest_text: Option<String>,
    pub parent_manifest: Option<Manifest>,
    pub next: Version,
    pub content: String,
    pub fingerprint: String,
    pub notes: String,
    pub existing_log: Option<String>,
    pub parent_log: Option<String>,
    pub own_text: Option<String>,
    pub log: String,
}

pub struct PrepareView {
    pub stage: PrepareStage,
    pub revision: Seq<char>,
    pub description: Seq<char>,
    pub entry_file: Option<Seq<char>>,
    pub initial: (u64, u64, u64, Seq<char>, Seq<char>),
    pub parent: Seq<char>,
    pub base: Option<Seq<char>>,
    pub base_tag: Option<Seq<char>>,
    pub parent_manifest_text: Option<Seq<char>>,
    pub parent_manifest: Option<Manifest>,
    pub next: (u64, u64, u64, Seq<char>, Seq<char>),
    pub content: Seq<char>,
    pub fingerprint: Seq<char>,
    pub notes: Seq<char>,
    pub existing_log: Option<Seq<char>>,
    pub parent_log: Option<Seq<char>>,
    pub own_text: Option<Seq<char>>,
    pub log: Seq<char>,
}

impl View for ReleasePrepare {
    type V = PrepareView;

    open spec fn view(&self) -> PrepareView {
        PrepareView {
            stage: self.stage,
            revision: self.revision@,
            description: self.description@,
            entry_file: opt_view(self.entry_file),
            initial: self.initial@,
            parent: self.parent@,
            base: opt_view(self.base),
            base_tag: opt_view(self.base_tag),
            parent_manifest_text: opt_view(self.parent_manifest_text),
            parent_manifest: self.parent_manifest,
            next: self.next@,
            content: self.content@,
            fingerprint: self.fingerprint@,
            notes: self.notes@,
            existing_log: opt_view(self.existing_log),
            parent_log: opt_view(self.parent_log),
            own_text: opt_view(self.own_text),
            log: self.log@,
        }
    }
}

/// `git rev-parse --is-shallow-repository`.
pub open spec fn shallow_args() -> Seq<Seq<char>> {
    seq!["rev-parse"@, "--is-shallow-repository"@]
}

pub open spec fn at(s: PrepareView, stage: PrepareStage) -> PrepareView {
    PrepareView { stage, ..s }
}

pub open spec fn stop(s: PrepareView, e: Seq<char>) -> (PrepareView, PrepareActionView) {
    (at(s, PrepareStage::Done), PrepareActionView::Finish(Err(e)))
}

/// Whether the release is the first: no manifest below it and no published base.
pub open spec fn first_release(s: PrepareView) -> bool {
    s.parent_manifest is None && s.base is None
}

/// Once the parent's manifest is known: the version before this change and the one that
/// it releases; then the content of the commit.
pub open spec fn version_step(s: PrepareView) -> (PrepareView, PrepareActionView) {
    let pv = match s.parent_manifest {
        Some(m) => Some(m.version@),
        None => None,
    };
    match previous_version_of(pv, s.base_tag, s.initial) {
        Err(e) => stop(s, e),
        Ok(previous) => if !first_release(s) && !supported(previous) {
            stop(s, outdated_error())
        } else {
            (
                PrepareView {
                    stage: PrepareStage::Content,
                    next: next_version_of(previous, s.description, first_release(s)),
                    ..s
                },
                PrepareActionView::Normalized(s.revision),
            )
        },
    }
}

/// Once the notes are known: the changelog of the commit.
pub open spec fn notes_step(s: PrepareView, notes: Seq<char>) -> (PrepareView, PrepareActionView) {
    (
        PrepareView { stage: PrepareStage::ExistingLog, notes, ..s },
        PrepareActionView::ReadFile(s.revision, changelog_path()),
    )
}

/// Once the commit's own manifest is known (the version it already prepares, or why it
/// cannot be read): the changelog of the release, then the hash of its notes.
pub open spec fn compose_step(s: PrepareView, own: Result<Option<Seq<char>>, Seq<char>>) -> (PrepareView, PrepareActionView) {
    match prepared_log(version_text(s.next), s.notes, s.existing_log, s.parent_log, own) {
        Err(e) => stop(s, e),
        Ok(log) => (PrepareView { stage: PrepareStage::NotesHash, log, ..s }, PrepareActionView::Hash(s.notes)),
    }
}

/// The manifest that a preparation writes, with the hash of its notes.
pub open spec fn prepared_manifest(s: PrepareView, notes_hash: Seq<char>) -> ManifestView {
    (1, version_text(s.next), s.parent, s.base, s.base_tag, s.fingerprint, s.description, notes_hash)
}

/// One step of the preparation of a release: what it decides on what came of its last
/// action.
pub open spec fn prepare_next(s: PrepareView, e: PrepareEventView) -> (PrepareView, PrepareActionView) {
    match (s.stage, e) {
        (PrepareStage::Settings, PrepareEventView::File(r)) => match file_settings(r) {
            Err(x) => stop(s, x),
            Ok(initial) => match gate(initial, s.description, s.entry_file is Some) {
                Err(x) => stop(s, x),
                Ok(None) => (at(s, PrepareStage::Done), PrepareActionView::Finish(Ok(None))),
                Ok(Some(v)) => (
                    PrepareView { stage: PrepareStage::History, initial: v, ..s },
                    PrepareActionView::ReadBytes(shallow_args()),
                ),
            },
        },
        (PrepareStage::History, PrepareEventView::Bytes(r)) => match r {
            Err(x) => stop(s, x),
            Ok(b) => if b != full_history_answer() {
                stop(s, shallow_error())
            } else {
                (at(s, PrepareStage::Parent), PrepareActionView::ReadText(parents_args(s.revision)))
            },
        },
        (PrepareStage::Parent, PrepareEventView::Text(r)) => match r {
            Err(x) => stop(s, x),
            Ok(line) => match parent_of(line) {
                Err(x) => stop(s, x),
                Ok(p) => (
                    PrepareView { stage: PrepareStage::Published, parent: p, ..s },
                    PrepareActionView::LatestPublished(p),
                ),
            },
        },
        (PrepareStage::Published, PrepareEventView::Published(r)) => match r {
            Err(x) => stop(s, x),
            Ok(found) => {
                let (base, base_tag) = match found {
                    Some((tag, sha)) => (Some(sha), Some(tag)),
                    None => (None, None),
                };
                (
                    PrepareView { stage: PrepareStage::ParentManifestFile, base, base_tag, ..s },
                    PrepareActionView::ReadFile(s.parent, manifest_path()),
                )
            },
        },
        (PrepareStage::ParentManifestFile, PrepareEventView::File(r)) => match r {
            Err(x) => stop(s, x),
            Ok(None) => version_step(PrepareView { parent_manifest_text: None, parent_manifest: None, ..s }),
            Ok(Some(t)) => (
                PrepareView { stage: PrepareStage::ParentManifest, parent_manifest_text: Some(t), ..s },
                PrepareActionView::ParseManifest(t),
            ),
        },
        (PrepareStage::ParentManifest, PrepareEventView::Manifest(r)) => match manifest_verdict(r) {
            Err(x) => stop(s, x),
            Ok(m) => version_step(PrepareView { parent_manifest: Some(m), ..s }),
        },
        (PrepareStage::Content, PrepareEventView::Text(r)) => match r {
            Err(x) => stop(s, x),
            Ok(content) => (
                PrepareView { stage: PrepareStage::Fingerprint, content, ..s },
                PrepareActionView::Hash(fingerprint_json(content, s.base, s.base_tag)),
            ),
        },
        (PrepareStage::Fingerprint, PrepareEventView::Text(r)) => match r {
            Err(x) => stop(s, x),
            Ok(f) => {
                let t = PrepareView { fingerprint: f, ..s };
                match s.entry_file {
                    Some(path) => (at(t, PrepareStage::EntryNotes), PrepareActionView::ReadNotes(path)),
                    None => match s.base {
                        Some(b) => (at(t, PrepareStage::From), PrepareActionView::Normalized(b)),
                        None => (at(t, PrepareStage::From), PrepareActionView::EmptyTree),
                    },
                }
            },
        },
        (PrepareStage::EntryNotes, PrepareEventView::Text(r)) => match r {
            Err(x) => stop(s, x),
            Ok(text) => match crate::changelog::note_validation(text) {
                Err(x) => stop(s, x),
                Ok(n) => notes_step(s, n),
            },
        },
        (PrepareStage::From, PrepareEventView::Text(r)) => match r {
            Err(x) => stop(s, x),
            Ok(from) => (at(s, PrepareStage::Diff), PrepareActionView::Diff(from, s.content)),
        },
        (PrepareStage::Diff, PrepareEventView::Text(r)) => match r {
            Err(x) => stop(s, x + "\nUse commit --entry-file para fornecer notas revisadas sem IA."@),
            Ok(diff) => (at(s, PrepareStage::Generated), PrepareActionView::Generate(diff)),
        },
        (PrepareStage::Generated, PrepareEventView::Text(r)) => match r {
            Err(x) => stop(s, x),
            Ok(n) => notes_step(s, n),
        },
        (PrepareStage::ExistingLog, PrepareEventView::File(r)) => match r {
            Err(x) => stop(s, x),
            Ok(l) => (
                PrepareView { stage: PrepareStage::ParentLog, existing_log: l, ..s },
                PrepareActionView::ReadFile(s.parent, changelog_path()),
            ),
        },
        (PrepareStage::ParentLog, PrepareEventView::File(r)) => match r {
            Err(x) => stop(s, x),
            Ok(l) => (
                PrepareView { stage: PrepareStage::OwnManifestFile, parent_log: l, ..s },
                PrepareActionView::ReadFile(s.revision, manifest_path()),
            ),
        },
        (PrepareStage::OwnManifestFile, PrepareEventView::File(r)) => match r {
            Err(x) => compose_step(s, Err(x)),
            Ok(None) => compose_step(PrepareView { own_text: None, ..s }, Ok(None)),
            Ok(Some(t)) => (
                PrepareView { stage: PrepareStage::OwnManifest, own_text: Some(t), ..s },
                PrepareActionView::ParseManifest(t),
            ),
        },
        (PrepareStage::OwnManifest, PrepareEventView::Manifest(r)) => match manifest_verdict(r) {
            Err(x) => compose_step(s, Err(x)),
            Ok(m) => compose_step(
                s,
                Ok(if s.own_text != s.parent_manifest_text { Some(m.version@) } else { None }),
            ),
        },
        (PrepareStage::NotesHash, PrepareEventView::Text(r)) => match r {
            Err(x) => stop(s, x),
            Ok(h) => (
                at(s, PrepareStage::Tree),
                PrepareActionView::WriteTree(s.revision, s.log, prepared_manifest(s, h)),
            ),
        },
        (PrepareStage::Tree, PrepareEventView::Text(r)) => match r {
            Err(x) => stop(s, x),
            Ok(tree) => (
                at(s, PrepareStage::Done),
                PrepareActionView::Finish(Ok(Some((tree, version_text(s.next), s.notes)))),
            ),
        },
        _ => (s, PrepareActionView::Finish(Err(Seq::empty()))),
    }
}

/// What a preparation holds: an initial version that `semver` accepts.
pub open spec fn prepare_well_formed(s: PrepareView) -> bool {
    crate::version::valid_prerelease(s.initial.3)
}

/// Which kind of answer each stage waits for.
pub open spec fn answers(stage: PrepareStage, event: PrepareEventView) -> bool {
    match stage {
        PrepareStage::Settings | PrepareStage::ParentManifestFile | PrepareStage::ExistingLog | PrepareStage::ParentLog
        | PrepareStage::OwnManifestFile => event is File,
        PrepareStage::History => event is Bytes,
        PrepareStage::Published => event is Published,
        PrepareStage::ParentManifest | PrepareStage::OwnManifest => event is Manifest,
        PrepareStage::Parent | PrepareStage::Content | PrepareStage::Fingerprint | PrepareStage::EntryNotes
        | PrepareStage::From | PrepareStage::Diff | PrepareStage::Generated | PrepareStage::NotesHash
        | PrepareStage::Tree => event is Text,
        PrepareStage::Done => false,
    }
}

/// A change that releases nothing costs nothing more: where the configuration enables no
/// release, or the change's message does not release, the preparation ends at once (with
/// no release, or with the refusal of a notes file), before any history check, published
/// release, generation or write.
pub proof fn lemma_no_release_asks_nothing_more(s: PrepareView, r: Result<Option<Seq<char>>, Seq<char>>)
    requires
        s.stage is Settings,
        file_settings(r) == Ok::<Option<(u64, u64, u64, Seq<char>, Seq<char>)>, Seq<char>>(None) || (file_settings(r) is Ok
            && crate::release::eligibility(s.description) == Ok::<bool, Seq<char>>(false)),
    ensures
        prepare_next(s, PrepareEventView::File(r)).0.stage is Done,
        prepare_next(s, PrepareEventView::File(r)).1 == PrepareActionView::Finish(
            if s.entry_file is Some {
                Err(crate::release::entry_file_error())
            } else {
                Ok(None)
            },
        ),
{
}

/// The version of the parent's manifest, when the preparation read one.
pub open spec fn parent_version(s: PrepareView) -> Option<Seq<char>> {
    match s.parent_manifest {
        Some(m) => Some(m.version@),
        None => None,
    }
}

/// Whether a preparation at `stage` has decided the version that it releases.
pub open spec fn past_version(stage: PrepareStage) -> bool {
    match stage {
        PrepareStage::Settings | PrepareStage::History | PrepareStage::Parent | PrepareStage::Published
        | PrepareStage::ParentManifestFile | PrepareStage::ParentManifest | PrepareStage::Done => false,
        _ => true,
    }
}

/// Once decided, the version that a preparation releases is the one that the change's
/// message calls for after the version below it (the parent's manifest, else the latest
/// published tag, else the initial version), which is not outdated unless the release is
/// the first; and a published base comes with both its commit and its tag.
pub open spec fn decided_version(s: PrepareView) -> bool {
    &&& past_version(s.stage) ==> (previous_version_of(parent_version(s), s.base_tag, s.initial) matches Ok(p) && s.next
        == next_version_of(p, s.description, first_release(s)) && (first_release(s) || supported(p)))
    &&& (s.base is Some <==> s.base_tag is Some)
}

/// Once composed, the changelog that a preparation holds is the one for its version and
/// notes, from the changelogs of the commit and of its parent.
pub open spec fn composed(s: PrepareView) -> bool {
    (s.stage is NotesHash || s.stage is Tree) ==> exists|own: Result<Option<Seq<char>>, Seq<char>>| #[trigger]
        prepared_log(version_text(s.next), s.notes, s.existing_log, s.parent_log, own) == Ok::<Seq<char>, Seq<char>>(
            s.log,
        )
}

/// The version that a preparation releases is decided once, when the version below the
/// change is known, and no later step changes it: a prepared release carries it.
pub proof fn lemma_prepared_version(s: PrepareView, e: PrepareEventView)
    requires
        decided_version(s),
    ensures
        decided_version(prepare_next(s, e).0),
        prepare_next(s, e).1 matches PrepareActionView::Finish(Ok(Some((_, v, _)))) ==> (previous_version_of(
            parent_version(s),
            s.base_tag,
            s.initial,
        ) matches Ok(p) && v == version_text(next_version_of(p, s.description, first_release(s)))),
{
}

/// The manifest that a preparation writes passes the check of the release that it
/// prepares: against the same parent, message, initial version and content fingerprint,
/// and where `semver` reads the version's text back as that version, the check's verdict
/// on the manifest is `Ok`.
pub proof fn lemma_prepared_manifest_passes_the_check(s: PrepareView, h: Seq<char>, m: Manifest)
    requires
        decided_version(s),
        s.stage is NotesHash,
        manifest_view(m) == prepared_manifest(s, h),
        crate::version::semver_parse(version_text(s.next)) == Ok::<(u64, u64, u64, Seq<char>, Seq<char>), Seq<char>>(
            s.next,
        ),
    ensures
        crate::release::metadata_verdict(m, parent_version(s), s.parent, s.description, s.initial, Ok(s.fingerprint))
            == Ok::<(), Seq<char>>(()),
{
}

/// The tree that a preparation writes holds the changelog composed for the release's
/// version and notes (see `prepared_log`) and the manifest of that version with the hash of
/// those notes.
pub proof fn lemma_prepared_tree(s: PrepareView, e: PrepareEventView)
    requires
        composed(s),
    ensures
        composed(prepare_next(s, e).0),
        prepare_next(s, e).1 matches PrepareActionView::WriteTree(r, l, m) ==> {
            &&& r == s.revision
            &&& exists|own: Result<Option<Seq<char>>, Seq<char>>| #[trigger]
                prepared_log(version_text(s.next), s.notes, s.existing_log, s.parent_log, own) == Ok::<
                    Seq<char>,
                    Seq<char>,
                >(l)
            &&& e matches PrepareEventView::Text(Ok(h)) && m == prepared_manifest(s, h)
        },
{
}

/// A revision of notes is refused when the notes are invalid (that error first) or the
/// prepared tree holds no changelog.
pub proof fn lemma_revision_refuses_bad_notes_or_missing_log(s: RevisionView, r: Result<Option<Seq<char>>, Seq<char>>)
    requires
        s.stage is Log,
    ensures
        crate::changelog::note_validation(s.notes) matches Err(x) ==> revision_next(s, PrepareEventView::File(r)).1
            == PrepareActionView::Finish(Err(x)),
        crate::changelog::note_validation(s.notes) is Ok && r == Ok::<Option<Seq<char>>, Seq<char>>(None) ==> revision_next(
            s,
            PrepareEventView::File(r),
        ).1 == PrepareActionView::Finish(Err(crate::release::missing_log_error())),
{
}

fn copy_opt(o: &Option<String>) -> (r: Option<String>)
    ensures
        opt_view(r) == opt_view(*o),
{
    match o {
        Some(s) => Some(copy_text(s.as_str())),
        None => None,
    }
}

fn same_opt(a: &Option<String>, b: &Option<String>) -> (r: bool)
    ensures
        r == (opt_view(*a) == opt_view(*b)),
{
    match (a, b) {
        (None, None) => true,
        (Some(x), Some(y)) => crate::text::same_chars(&crate::text::chars_of(x.as_str()), &crate::text::chars_of(y.as_str())),
        _ => false,
    }
}

impl ReleasePrepare {
    /// The preparation of a release for the commit `revision` described by `description`,
    /// with the notes file `entry_file` when the user gave one, and its first action: the
    /// configuration file.
    pub fn start(revision: String, description: String, entry_file: Option<String>) -> (r: (ReleasePrepare, PrepareAction))
        ensures
            r.0@.stage == PrepareStage::Settings,
            r.0@.revision == revision@,
            r.0@.description == description@,
            r.0@.entry_file == opt_view(entry_file),
            prepare_well_formed(r.0@),
            decided_version(r.0@),
            composed(r.0@),
            r.1@ == PrepareActionView::ReadFile(revision@, config_path()),
    {
        let path = copy_text(revision.as_str());
        let p = ReleasePrepare {
            stage: PrepareStage::Settings,
            revision,
            description,
            entry_file,
            initial: Version::new(0, 1, 0),
            parent: String::new(),
            base: None,
            base_tag: None,
            parent_manifest_text: None,
            parent_manifest: None,
            next: Version::new(0, 1, 0),
            content: String::new(),
            fingerprint: String::new(),
            notes: String::new(),
            existing_log: None,
            parent_log: None,
            own_text: None,
            log: String::new(),
        };
        (p, PrepareAction::ReadFile(path, String::from_str("clean-dev-cycle.toml")))
    }

    /// Whether `event` is the kind of answer that the preparation waits for.
    pub fn accepts(&self, event: &PrepareEvent) -> (r: bool)
        ensures
            r == answers(self.stage, event@),
    {
        match (self.stage, event) {
            (PrepareStage::Settings, PrepareEvent::File(_)) | (PrepareStage::ParentManifestFile, PrepareEvent::File(_))
            | (PrepareStage::ExistingLog, PrepareEvent::File(_)) | (PrepareStage::ParentLog, PrepareEvent::File(_))
            | (PrepareStage::OwnManifestFile, PrepareEvent::File(_)) => true,
            (PrepareStage::History, PrepareEvent::Bytes(_)) => true,
            (PrepareStage::Published, PrepareEvent::Published(_)) => true,
            (PrepareStage::ParentManifest, PrepareEvent::Manifest(_)) | (PrepareStage::OwnManifest, PrepareEvent::Manifest(_)) => true,
            (PrepareStage::Parent, PrepareEvent::Text(_)) | (PrepareStage::Content, PrepareEvent::Text(_))
            | (PrepareStage::Fingerprint, PrepareEvent::Text(_)) | (PrepareStage::EntryNotes, PrepareEvent::Text(_))
            | (PrepareStage::From, PrepareEvent::Text(_)) | (PrepareStage::Diff, PrepareEvent::Text(_))
            | (PrepareStage::Generated, PrepareEvent::Text(_)) | (PrepareStage::NotesHash, PrepareEvent::Text(_))
            | (PrepareStage::Tree, PrepareEvent::Text(_)) => true,
            _ => false,
        }
    }

    fn fail(&mut self, e: String) -> (a: PrepareAction)
        ensures
            (final(self)@, a@) == stop(old(self)@, e@),
    {
        self.stage = PrepareStage::Done;
        PrepareAction::Finish(Err(e))
    }

    fn version_step(&mut self) -> (a: PrepareAction)
        requires
            crate::version::valid_prerelease(old(self).initial@.3),
        ensures
            (final(self)@, a@) == version_step(old(self)@),
    {
        let previous = previous_version(
            match &self.parent_manifest {
                Some(m) => Some(m),
                None => None,
            },
            opt_ref(&self.base_tag),
            &self.initial,
        );
        let previous = match previous {
            Err(e) => return self.fail(e),
            Ok(p) => p,
        };
        let first = self.parent_manifest.is_none() && self.base.is_none();
        let usable = first || if previous.pre.as_str().is_empty() {
            previous.major < u64::MAX && previous.minor < u64::MAX && previous.patch < u64::MAX
        } else {
            !crate::version::prerelease_overflows(previous.pre.as_str())
        };
        if !usable {
            let mut m = String::from_str("release desatualizada ou versão inválida. ");
            m.append("Reabra a mudança com jj edit e conclua com clean-dev-cycle commit para preparar a release.");
            return self.fail(m);
        }
        self.next = next_version(&previous, self.description.as_str(), first);
        self.stage = PrepareStage::Content;
        PrepareAction::Normalized(copy_text(self.revision.as_str()))
    }

    fn notes_step(&mut self, notes: String) -> (a: PrepareAction)
        ensures
            (final(self)@, a@) == notes_step(old(self)@, notes@),
    {
        self.stage = PrepareStage::ExistingLog;
        self.notes = notes;
        PrepareAction::ReadFile(copy_text(self.revision.as_str()), String::from_str("CHANGELOG.md"))
    }

    fn compose_step(&mut self, own: Result<Option<String>, String>) -> (a: PrepareAction)
        ensures
            (final(self)@, a@) == compose_step(old(self)@, opt_result(own)),
    {
        let next = self.next.text();
        let log = prepare(
            next.as_str(),
            self.notes.as_str(),
            opt_ref(&self.existing_log),
            opt_ref(&self.parent_log),
            own,
        );
        match log {
            Err(e) => self.fail(e),
            Ok(l) => {
                self.stage = PrepareStage::NotesHash;
                self.log = l;
                PrepareAction::Hash(copy_text(self.notes.as_str()))
            },
        }
    }

    /// Takes what came of the last action and gives the next one (see `prepare_next`).
    pub fn advance(&mut self, event: PrepareEvent) -> (a: PrepareAction)
        requires
            prepare_well_formed(old(self)@),
            answers(old(self).stage, event@),
        ensures
            (final(self)@, a@) == prepare_next(old(self)@, event@),
            prepare_well_formed(final(self)@),
    {
        match (self.stage, event) {
            (PrepareStage::Settings, PrepareEvent::File(r)) => {
                let initial = match settings_from_file(r) {
                    Err(e) => return self.fail(e),
                    Ok(i) => i,
                };
                match prepare_gate(initial, self.description.as_str(), self.entry_file.is_some()) {
                    Err(e) => self.fail(e),
                    Ok(None) => {
                        self.stage = PrepareStage::Done;
                        PrepareAction::Finish(Ok(None))
                    },
                    Ok(Some(v)) => {
                        self.stage = PrepareStage::History;
                        self.initial = v;
                        let a = args(&["rev-parse", "--is-shallow-repository"]);
                        assert(strings_view(a@) =~= shallow_args());
                        PrepareAction::ReadBytes(a)
                    },
                }
            },
            (PrepareStage::History, PrepareEvent::Bytes(r)) => match r {
                Err(e) => self.fail(e),
                Ok(b) => {
                    let repo = Repository { root: Vec::new() };
                    match repo.ensure_full_history(b.as_slice()) {
                        Err(e) => self.fail(e),
                        Ok(()) => {
                            self.stage = PrepareStage::Parent;
                            let a = args(&["rev-list", "--parents", "-n", "1", self.revision.as_str()]);
                            assert(strings_view(a@) =~= parents_args(self.revision@));
                            PrepareAction::ReadText(a)
                        },
                    }
                },
            },
            (PrepareStage::Parent, PrepareEvent::Text(r)) => match r {
                Err(e) => self.fail(e),
                Ok(line) => match parent(line.as_str()) {
                    Err(e) => self.fail(e),
                    Ok(p) => {
                        self.stage = PrepareStage::Published;
                        let q = copy_text(p.as_str());
                        self.parent = p;
                        PrepareAction::LatestPublished(q)
                    },
                },
            },
            (PrepareStage::Published, PrepareEvent::Published(r)) => match r {
                Err(e) => self.fail(e),
                Ok(found) => {
                    match found {
                        Some((tag, sha)) => {
                            self.base = Some(sha);
                            self.base_tag = Some(tag);
                        },
                        None => {
                            self.base = None;
                            self.base_tag = None;
                        },
                    }
                    self.stage = PrepareStage::ParentManifestFile;
                    PrepareAction::ReadFile(copy_text(self.parent.as_str()), String::from_str(".clean-dev-cycle-release.json"))
                },
            },
            (PrepareStage::ParentManifestFile, PrepareEvent::File(r)) => match r {
                Err(e) => self.fail(e),
                Ok(None) => {
                    self.parent_manifest_text = None;
                    self.parent_manifest = None;
                    self.version_step()
                },
                Ok(Some(t)) => {
                    self.stage = PrepareStage::ParentManifest;
                    let text = copy_text(t.as_str());
                    self.parent_manifest_text = Some(t);
                    PrepareAction::ParseManifest(text)
                },
            },
            (PrepareStage::ParentManifest, PrepareEvent::Manifest(r)) => match manifest(Some(r)) {
                Err(e) => self.fail(e),
                Ok(None) => self.fail(String::new()),
                Ok(Some(m)) => {
                    self.parent_manifest = Some(m);
                    self.version_step()
                },
            },
            (PrepareStage::Content, PrepareEvent::Text(r)) => match r {
                Err(e) => self.fail(e),
                Ok(content) => {
                    let data = fingerprint_data(content.as_str(), opt_ref(&self.base), opt_ref(&self.base_tag));
                    self.stage = PrepareStage::Fingerprint;
                    self.content = content;
                    PrepareAction::Hash(data)
                },
            },
            (PrepareStage::Fingerprint, PrepareEvent::Text(r)) => match r {
                Err(e) => self.fail(e),
                Ok(f) => {
                    self.fingerprint = f;
                    match &self.entry_file {
                        Some(path) => {
                            let p = copy_text(path.as_str());
                            self.stage = PrepareStage::EntryNotes;
                            PrepareAction::ReadNotes(p)
                        },
                        None => {
                            self.stage = PrepareStage::From;
                            match &self.base {
                                Some(b) => PrepareAction::Normalized(copy_text(b.as_str())),
                                None => PrepareAction::EmptyTree,
                            }
                        },
                    }
                },
            },
            (PrepareStage::EntryNotes, PrepareEvent::Text(r)) => match r {
                Err(e) => self.fail(e),
                Ok(text) => match crate::changelog::validate(text.as_str()) {
                    Err(e) => self.fail(e),
                    Ok(n) => self.notes_step(n),
                },
            },
            (PrepareStage::From, PrepareEvent::Text(r)) => match r {
                Err(e) => self.fail(e),
                Ok(from) => {
                    self.stage = PrepareStage::Diff;
                    PrepareAction::Diff(from, copy_text(self.content.as_str()))
                },
            },
            (PrepareStage::Diff, PrepareEvent::Text(r)) => match r {
                Err(e) => {
                    let mut m = e;
                    m.append("\nUse commit --entry-file para fornecer notas revisadas sem IA.");
                    self.fail(m)
                },
                Ok(diff) => {
                    self.stage = PrepareStage::Generated;
                    PrepareAction::Generate(diff)
                },
            },
            (PrepareStage::Generated, PrepareEvent::Text(r)) => match r {
                Err(e) => self.fail(e),
                Ok(n) => self.notes_step(n),
            },
            (PrepareStage::ExistingLog, PrepareEvent::File(r)) => match r {
                Err(e) => self.fail(e),
                Ok(l) => {
                    self.stage = PrepareStage::ParentLog;
                    self.existing_log = l;
                    PrepareAction::ReadFile(copy_text(self.parent.as_str()), String::from_str("CHANGELOG.md"))
                },
            },
            (PrepareStage::ParentLog, PrepareEvent::File(r)) => match r {
                Err(e) => self.fail(e),
                Ok(l) => {
                    self.stage = PrepareStage::OwnManifestFile;
                    self.parent_log = l;
                    PrepareAction::ReadFile(copy_text(self.revision.as_str()), String::from_str(".clean-dev-cycle-release.json"))
                },
            },
            (PrepareStage::OwnManifestFile, PrepareEvent::File(r)) => match r {
                Err(e) => self.compose_step(Err(e)),
                Ok(None) => {
                    self.own_text = None;
                    self.compose_step(Ok(None))
                },
                Ok(Some(t)) => {
                    self.stage = PrepareStage::OwnManifest;
                    let text = copy_text(t.as_str());
                    self.own_text = Some(t);
                    PrepareAction::ParseManifest(text)
                },
            },
            (PrepareStage::OwnManifest, PrepareEvent::Manifest(r)) => match manifest(Some(r)) {
                Err(e) => self.compose_step(Err(e)),
                Ok(None) => self.compose_step(Err(String::new())),
                Ok(Some(m)) => {
                    let own = if !same_opt(&self.own_text, &self.parent_manifest_text) {
                        Some(m.version)
                    } else {
                        None
                    };
                    self.compose_step(Ok(own))
                },
            },
            (PrepareStage::NotesHash, PrepareEvent::Text(r)) => match r {
                Err(e) => self.fail(e),
                Ok(h) => {
                    let m = Manifest {
                        schema: 1,
                        version: self.next.text(),
                        parent: copy_text(self.parent.as_str()),
                        base: copy_opt(&self.base),
                        base_tag: copy_opt(&self.base_tag),
                        fingerprint: copy_text(self.fingerprint.as_str()),
                        message: copy_text(self.description.as_str()),
                        notes_hash: h,
                    };
                    self.stage = PrepareStage::Tree;
                    PrepareAction::WriteTree(copy_text(self.revision.as_str()), copy_text(self.log.as_str()), m)
                },
            },
            (PrepareStage::Tree, PrepareEvent::Text(r)) => match r {
                Err(e) => self.fail(e),
                Ok(tree) => {
                    self.stage = PrepareStage::Done;
                    PrepareAction::Finish(Ok(Some(Prepared {
                        tree,
                        version: self.next.text(),
                        notes: copy_text(self.notes.as_str()),
                    })))
                },
            },
            (_, _) => PrepareAction::Finish(Err(String::new())),
        }
    }
}

/// The manifest of a prepared release with the hash of revised notes: everything else
/// stays as it was.
pub fn revised_manifest(m: &Manifest, notes_hash: String) -> (r: Manifest)
    ensures
        manifest_view(r) == (m.schema, m.version@, m.parent@, opt_view(m.base), opt_view(m.base_tag), m.fingerprint@, m.message@, notes_hash@),
{
    Manifest {
        schema: m.schema,
        version: copy_text(m.version.as_str()),
        parent: copy_text(m.parent.as_str()),
        base: copy_opt(&m.base),
        base_tag: copy_opt(&m.base_tag),
        fingerprint: copy_text(m.fingerprint.as_str()),
        message: copy_text(m.message.as_str()),
        notes_hash,
    }
}

pub open spec fn missing_manifest_error() -> Seq<char> {
    "manifesto preparado ausente."@
}

#[derive(Debug, Clone, Copy)]
pub enum RevisionStage {
    Log,
    ManifestFile,
    Manifest,
    NotesHash,
    Tree,
    Done,
}

/// A revision of the notes of a prepared release in progress.
#[derive(Debug)]
pub struct NotesRevision {
    pub stage: RevisionStage,
    /// The prepared release: its tree, version and notes.
    pub tree: String,
    pub version: String,
    pub old_notes: String,
    /// The notes that the user wrote, checked once the changelog is read.
    pub notes: String,
    /// The changelog with the revised entry.
    pub log: String,
    pub manifest: Option<Manifest>,
}

pub struct RevisionView {
    pub stage: RevisionStage,
    pub tree: Seq<char>,
    pub version: Seq<char>,
    pub old_notes: Seq<char>,
    pub notes: Seq<char>,
    pub log: Seq<char>,
    pub manifest: Option<Manifest>,
}

impl View for NotesRevision {
    type V = RevisionView;

    open spec fn view(&self) -> RevisionView {
        RevisionView {
            stage: self.stage,
            tree: self.tree@,
            version: self.version@,
            old_notes: self.old_notes@,
            notes: self.notes@,
            log: self.log@,
            manifest: self.manifest,
        }
    }
}

pub open spec fn revision_stop(s: RevisionView, e: Seq<char>) -> (RevisionView, PrepareActionView) {
    (RevisionView { stage: RevisionStage::Done, ..s }, PrepareActionView::Finish(Err(e)))
}

/// One step of the revision of a prepared release's notes: the notes must be valid and
/// the prepared tree must hold its changelog, whose entry gets the new notes, and its
/// manifest, which gets their hash; the release is then the tree with both written.
pub open spec fn revision_next(s: RevisionView, e: PrepareEventView) -> (RevisionView, PrepareActionView) {
    match (s.stage, e) {
        (RevisionStage::Log, PrepareEventView::File(r)) => match crate::changelog::note_validation(s.notes) {
            Err(x) => revision_stop(s, x),
            Ok(_) => match r {
                Err(x) => revision_stop(s, x),
                Ok(log) => match crate::release::revised_notes(s.version, s.old_notes, s.notes, log) {
                    Err(x) => revision_stop(s, x),
                    Ok((n, l)) => (
                        RevisionView { stage: RevisionStage::ManifestFile, notes: n, log: l, ..s },
                        PrepareActionView::ReadFile(s.tree, manifest_path()),
                    ),
                },
            },
        },
        (RevisionStage::ManifestFile, PrepareEventView::File(r)) => match r {
            Err(x) => revision_stop(s, x),
            Ok(None) => revision_stop(s, missing_manifest_error()),
            Ok(Some(t)) => (RevisionView { stage: RevisionStage::Manifest, ..s }, PrepareActionView::ParseManifest(t)),
        },
        (RevisionStage::Manifest, PrepareEventView::Manifest(r)) => match manifest_verdict(r) {
            Err(x) => revision_stop(s, x),
            Ok(m) => (
                RevisionView { stage: RevisionStage::NotesHash, manifest: Some(m), ..s },
                PrepareActionView::Hash(s.notes),
            ),
        },
        (RevisionStage::NotesHash, PrepareEventView::Text(r)) => match r {
            Err(x) => revision_stop(s, x),
            Ok(h) => {
                let m = s.manifest->Some_0;
                (
                    RevisionView { stage: RevisionStage::Tree, ..s },
                    PrepareActionView::WriteTree(
                        s.tree,
                        s.log,
                        (m.schema, m.version@, m.parent@, opt_view(m.base), opt_view(m.base_tag), m.fingerprint@, m.message@, h),
                    ),
                )
            },
        },
        (RevisionStage::Tree, PrepareEventView::Text(r)) => match r {
            Err(x) => revision_stop(s, x),
            Ok(t) => (
                RevisionView { stage: RevisionStage::Done, ..s },
                PrepareActionView::Finish(Ok(Some((t, s.version, s.notes)))),
            ),
        },
        _ => (s, PrepareActionView::Finish(Err(Seq::empty()))),
    }
}

pub open spec fn revision_answers(stage: RevisionStage, event: PrepareEventView) -> bool {
    match stage {
        RevisionStage::Log | RevisionStage::ManifestFile => event is File,
        RevisionStage::Manifest => event is Manifest,
        RevisionStage::NotesHash | RevisionStage::Tree => event is Text,
        RevisionStage::Done => false,
    }
}

pub open spec fn revision_well_formed(s: RevisionView) -> bool {
    (s.stage is NotesHash ==> s.manifest is Some)
}

/// Once the changelog is read, a revision holds checked notes and the changelog whose
/// release entry was rewritten to them (see `revised_notes`).
pub open spec fn revised(s: RevisionView) -> bool {
    !(s.stage is Log || s.stage is Done) ==> exists|input: Seq<char>, log: Seq<char>| #[trigger]
        crate::release::revised_notes(s.version, s.old_notes, input, Some(log)) == Ok::<
            (Seq<char>, Seq<char>),
            Seq<char>,
        >((s.notes, s.log))
}

/// A revision of notes keeps the prepared release but for its notes: the tree that it
/// writes is the prepared tree with the changelog whose release entry holds the checked
/// notes and with the prepared manifest, of which only the hash of the notes is replaced;
/// the release that it gives back keeps the prepared version.
pub proof fn lemma_revision_changes_only_the_notes(s: RevisionView, e: PrepareEventView)
    requires
        revision_well_formed(s),
        revised(s),
    ensures
        revised(revision_next(s, e).0),
        revision_next(s, e).1 matches PrepareActionView::WriteTree(t, l, m) ==> {
            &&& t == s.tree
            &&& exists|input: Seq<char>, log: Seq<char>| #[trigger]
                crate::release::revised_notes(s.version, s.old_notes, input, Some(log)) == Ok::<
                    (Seq<char>, Seq<char>),
                    Seq<char>,
                >((s.notes, l))
            &&& s.manifest matches Some(held) && e matches PrepareEventView::Text(Ok(h)) && m == (
                held.schema,
                held.version@,
                held.parent@,
                opt_view(held.base),
                opt_view(held.base_tag),
                held.fingerprint@,
                held.message@,
                h,
            )
        },
        revision_next(s, e).1 matches PrepareActionView::Finish(Ok(Some((_, v, n)))) ==> v == s.version && n == s.notes,
{
    if s.stage is Log {
        if let PrepareEventView::File(Ok(Some(log))) = e {
            if crate::release::revised_notes(s.version, s.old_notes, s.notes, Some(log)) is Ok {
                let (n, l) = crate::release::revised_notes(s.version, s.old_notes, s.notes, Some(log))->Ok_0;
                assert(revision_next(s, e).0.notes == n && revision_next(s, e).0.log == l);
            }
        }
    }
}

impl NotesRevision {
    /// The revision of the notes of `prepared` to `notes`, and its first action: the
    /// changelog of the prepared tree.
    pub fn start(prepared: Prepared, notes: String) -> (r: (NotesRevision, PrepareAction))
        ensures
            r.0@.stage == RevisionStage::Log,
            r.0@.tree == prepared.tree@,
            r.0@.version == prepared.version@,
            r.0@.old_notes == prepared.notes@,
            r.0@.notes == notes@,
            revision_well_formed(r.0@),
            r.1@ == PrepareActionView::ReadFile(prepared.tree@, changelog_path()),
    {
        let path = copy_text(prepared.tree.as_str());
        let revision = NotesRevision {
            stage: RevisionStage::Log,
            tree: prepared.tree,
            version: prepared.version,
            old_notes: prepared.notes,
            notes,
            log: String::new(),
            manifest: None,
        };
        (revision, PrepareAction::ReadFile(path, String::from_str("CHANGELOG.md")))
    }

    /// Whether `event` is the kind of answer that the revision waits for.
    pub fn accepts(&self, event: &PrepareEvent) -> (r: bool)
        ensures
            r == revision_answers(self.stage, event@),
    {
        match (self.stage, event) {
            (RevisionStage::Log, PrepareEvent::File(_)) | (RevisionStage::ManifestFile, PrepareEvent::File(_)) => true,
            (RevisionStage::Manifest, PrepareEvent::Manifest(_)) => true,
            (RevisionStage::NotesHash, PrepareEvent::Text(_)) | (RevisionStage::Tree, PrepareEvent::Text(_)) => true,
            _ => false,
        }
    }

    fn fail(&mut self, e: String) -> (a: PrepareAction)
        ensures
            (final(self)@, a@) == revision_stop(old(self)@, e@),
    {
        self.stage = RevisionStage::Done;
        PrepareAction::Finish(Err(e))
    }

    /// Takes what came of the last action and gives the next one (see `revision_next`).
    pub fn advance(&mut self, event: PrepareEvent) -> (a: PrepareAction)
        requires
            revision_well_formed(old(self)@),
            revision_answers(old(self).stage, event@),
        ensures
            (final(self)@, a@) == revision_next(old(self)@, event@),
            revision_well_formed(final(self)@),
    {
        match (self.stage, event) {
            (RevisionStage::Log, PrepareEvent::File(r)) => {
                if let Err(e) = crate::changelog::validate(self.notes.as_str()) {
                    return self.fail(e);
                }
                let log = match r {
                    Err(e) => return self.fail(e),
                    Ok(l) => l,
                };
                let prepared = Prepared {
                    tree: copy_text(self.tree.as_str()),
                    version: copy_text(self.version.as_str()),
                    notes: copy_text(self.old_notes.as_str()),
                };
                match crate::release::revise_notes(&prepared, self.notes.as_str(), opt_ref(&log)) {
                    Err(e) => self.fail(e),
                    Ok((n, l)) => {
                        self.stage = RevisionStage::ManifestFile;
                        self.notes = n;
                        self.log = l;
                        PrepareAction::ReadFile(copy_text(self.tree.as_str()), String::from_str(".clean-dev-cycle-release.json"))
                    },
                }
            },
            (RevisionStage::ManifestFile, PrepareEvent::File(r)) => match r {
                Err(e) => self.fail(e),
                Ok(None) => self.fail(String::from_str("manifesto preparado ausente.")),
                Ok(Some(t)) => {
                    self.stage = RevisionStage::Manifest;
                    PrepareAction::ParseManifest(t)
                },
            },
            (RevisionStage::Manifest, PrepareEvent::Manifest(r)) => match manifest(Some(r)) {
                Err(e) => self.fail(e),
                Ok(None) => self.fail(String::new()),
                Ok(Some(m)) => {
                    self.stage = RevisionStage::NotesHash;
                    self.manifest = Some(m);
                    PrepareAction::Hash(copy_text(self.notes.as_str()))
                },
            },
            (RevisionStage::NotesHash, PrepareEvent::Text(r)) => match r {
                Err(e) => self.fail(e),
                Ok(h) => {
                    let m = match &self.manifest {
                        Some(m) => revised_manifest(m, h),
                        None => return self.fail(String::new()),
                    };
                    self.stage = RevisionStage::Tree;
                    PrepareAction::WriteTree(copy_text(self.tree.as_str()), copy_text(self.log.as_str()), m)
                },
            },
            (RevisionStage::Tree, PrepareEvent::Text(r)) => match r {
                Err(e) => self.fail(e),
                Ok(t) => {
                    self.stage = RevisionStage::Done;
                    PrepareAction::Finish(Ok(Some(Prepared {
                        tree: t,
                        version: copy_text(self.version.as_str()),
                        notes: copy_text(self.notes.as_str()),
                    })))
                },
            },
            (_, _) => PrepareAction::Finish(Err(String::new())),
        }
    }
}

} // verus!
