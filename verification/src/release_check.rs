//! The check of a release commit before it is published, as the decisions between the
//! reads it makes: the caller performs each action (a file of a revision, a Git read, a
//! parse of a manifest, a normalized tree, a hash) and hands back what came of it.
use vstd::prelude::*;
use vstd::string::*;
use crate::git::{push_all, strings_view};
use crate::message::text_result;
use crate::release::{
    base_verdict, changes_verdict, check_base, check_changes, check_entries, check_metadata,
    check_notes_hash, entry_notes, file_settings, fingerprint_data, fingerprint_json, invalid_manifest_error,
    manifest, metadata_verdict, notes_changed_error, opt_result, opt_text, opt_view, parent, parent_of,
    settings_from_file, stable_verdict, strings, text_result_of, Manifest,
};
use crate::version::{semver_parse, Version};

verus! {

/// What the check asks for next.
#[derive(Debug)]
pub enum CheckAction {
    /// The text of the file at `path` in `revision` (see `release::file`).
    ReadFile(String, String),
    /// What Git prints for these arguments, as text.
    ReadText(Vec<String>),
    /// What Git prints for these arguments, as bytes.
    ReadBytes(Vec<String>),
    /// The manifest that this text holds, as JSON.
    ParseManifest(String),
    /// The tree of `revision` without what a release preparation writes (see
    /// `release::normalized`).
    Normalized(String),
    /// The identifier that `git hash-object --stdin` gives these bytes of text.
    Hash(String),
    /// The commit that this reference resolves to.
    Resolve(String),
    /// The end of the check: no release in the commit, the release and its notes, or why
    /// the commit is refused.
    Finish(Result<Option<(Manifest, String)>, String>),
}

/// What came of an action.
#[derive(Debug)]
pub enum CheckEvent {
    File(Result<Option<String>, String>),
    Text(Result<String, String>),
    Bytes(Result<Vec<u8>, String>),
    Manifest(Result<Manifest, String>),
}

pub enum CheckActionView {
    ReadFile(Seq<char>, Seq<char>),
    ReadText(Seq<Seq<char>>),
    ReadBytes(Seq<Seq<char>>),
    ParseManifest(Seq<char>),
    Normalized(Seq<char>),
    Hash(Seq<char>),
    Resolve(Seq<char>),
    Finish(Result<Option<(Manifest, Seq<char>)>, Seq<char>>),
}

pub enum CheckEventView {
    File(Result<Option<Seq<char>>, Seq<char>>),
    Text(Result<Seq<char>, Seq<char>>),
    Bytes(Result<Seq<u8>, Seq<char>>),
    Manifest(Result<Manifest, Seq<char>>),
}

impl View for CheckAction {
    type V = CheckActionView;

    open spec fn view(&self) -> CheckActionView {
        match self {
            CheckAction::ReadFile(r, p) => CheckActionView::ReadFile(r@, p@),
            CheckAction::ReadText(a) => CheckActionView::ReadText(strings_view(a@)),
            CheckAction::ReadBytes(a) => CheckActionView::ReadBytes(strings_view(a@)),
            CheckAction::ParseManifest(t) => CheckActionView::ParseManifest(t@),
            CheckAction::Normalized(r) => CheckActionView::Normalized(r@),
            CheckAction::Hash(t) => CheckActionView::Hash(t@),
            CheckAction::Resolve(r) => CheckActionView::Resolve(r@),
            CheckAction::Finish(r) => CheckActionView::Finish(match r {
                Ok(None) => Ok(None),
                Ok(Some((m, n))) => Ok(Some((*m, n@))),
                Err(e) => Err(e@),
            }),
        }
    }
}

impl View for CheckEvent {
    type V = CheckEventView;

    open spec fn view(&self) -> CheckEventView {
        match self {
            CheckEvent::File(r) => CheckEventView::File(opt_result(*r)),
            CheckEvent::Text(r) => CheckEventView::Text(text_result(*r)),
            CheckEvent::Bytes(r) => CheckEventView::Bytes(crate::git::bytes_result(*r)),
            CheckEvent::Manifest(r) => CheckEventView::Manifest(match r {
                Ok(m) => Ok(*m),
                Err(e) => Err(e@),
            }),
        }
    }
}

#[derive(Debug, Clone, Copy)]
pub enum CheckStage {
    Settings,
    Parent,
    Description,
    Before,
    After,
    OldLog,
    Log,
    Metadata,
    ParentMetadata,
    Normalized,
    Fingerprint,
    Base,
    MergeBase,
    NotesHash,
    Done,
}

/// A check in progress.
#[derive(Debug)]
pub struct ReleaseCheck {
    pub stage: CheckStage,
    pub revision: String,
    /// The initial version of the configuration.
    pub initial: Version,
    pub parent: String,
    /// The commit's message (checked, once the changelogs are read).
    pub description: String,
    /// The manifests of the parent and of the commit, and the parent's changelog.
    pub before: Result<Option<String>, String>,
    pub after: Result<Option<String>, String>,
    pub old_log: Result<Option<String>, String>,
    pub old_entries: Vec<String>,
    pub entries: Vec<String>,
    pub metadata: Option<Manifest>,
    pub parent_metadata: Option<Manifest>,
    /// The commit that the release's base resolved to.
    pub resolved: String,
    pub notes: String,
}

pub struct CheckView {
    pub stage: CheckStage,
    pub revision: Seq<char>,
    pub initial: (u64, u64, u64, Seq<char>, Seq<char>),
    pub parent: Seq<char>,
    pub description: Seq<char>,
    pub before: Result<Option<Seq<char>>, Seq<char>>,
    pub after: Result<Option<Seq<char>>, Seq<char>>,
    pub old_log: Result<Option<Seq<char>>, Seq<char>>,
    pub old_entries: Seq<Seq<char>>,
    pub entries: Seq<Seq<char>>,
    pub metadata: Option<Manifest>,
    pub parent_metadata: Option<Manifest>,
    pub resolved: Seq<char>,
    pub notes: Seq<char>,
}

impl View for ReleaseCheck {
    type V = CheckView;

    open spec fn view(&self) -> CheckView {
        CheckView {
            stage: self.stage,
            revision: self.revision@,
            initial: self.initial@,
            parent: self.parent@,
            description: self.description@,
            before: opt_result(self.before),
            after: opt_result(self.after),
            old_log: opt_result(self.old_log),
            old_entries: strings(self.old_entries@),
            entries: strings(self.entries@),
            metadata: self.metadata,
            parent_metadata: self.parent_metadata,
            resolved: self.resolved@,
            notes: self.notes@,
        }
    }
}

pub open spec fn config_path() -> Seq<char> {
    "clean-dev-cycle.toml"@
}

pub open spec fn manifest_path() -> Seq<char> {
    ".clean-dev-cycle-release.json"@
}

pub open spec fn changelog_path() -> Seq<char> {
    "CHANGELOG.md"@
}

/// `git rev-list --parents -n 1 <revision>`: the commit and its parents.
pub open spec fn parents_args(revision: Seq<char>) -> Seq<Seq<char>> {
    seq!["rev-list"@, "--parents"@, "-n"@, "1"@, revision]
}

/// `git show -s --format=%B <revision>`: the commit's message.
pub open spec fn message_args(revision: Seq<char>) -> Seq<Seq<char>> {
    seq!["show"@, "-s"@, "--format=%B"@, revision]
}

/// `git merge-base <base> <parent>`: where the base and the parent meet.
pub open spec fn merge_base_args(base: Seq<char>, parent: Seq<char>) -> Seq<Seq<char>> {
    seq!["merge-base"@, base, parent]
}

/// The verdict on a parsed manifest (see `release::manifest`).
pub open spec fn manifest_verdict(parsed: Result<Manifest, Seq<char>>) -> Result<Manifest, Seq<char>> {
    match parsed {
        Err(e) => Err(invalid_manifest_error(e)),
        Ok(m) => match stable_verdict(semver_parse(m.version@)) {
            Err(e) => Err(invalid_manifest_error(e)),
            Ok(_) => Ok(m),
        },
    }
}

pub open spec fn at(s: CheckView, stage: CheckStage) -> CheckView {
    CheckView { stage, ..s }
}

pub open spec fn stop(s: CheckView, e: Seq<char>) -> (CheckView, CheckActionView) {
    (at(s, CheckStage::Done), CheckActionView::Finish(Err(e)))
}

/// The manifest of the commit, as the check holds it once parsed.
pub open spec fn held(s: CheckView) -> Manifest {
    s.metadata->Some_0
}

/// After the manifest and the base: the notes of the commit's changelog entry, which must
/// hash as the manifest recorded.
pub open spec fn entries_step(s: CheckView) -> (CheckView, CheckActionView) {
    match entry_notes(held(s).version@, s.old_entries, s.entries) {
        Err(e) => stop(s, e),
        Ok(n) => (CheckView { stage: CheckStage::NotesHash, notes: n, ..s }, CheckActionView::Hash(n)),
    }
}

/// After the fingerprint (or the error of computing it): the manifest's verdict, then the
/// base when the manifest names one.
pub open spec fn metadata_step(s: CheckView, fingerprint: Result<Seq<char>, Seq<char>>) -> (CheckView, CheckActionView) {
    let m = held(s);
    let pv = match s.parent_metadata {
        Some(p) => Some(p.version@),
        None => None,
    };
    match metadata_verdict(m, pv, s.parent, s.description, s.initial, fingerprint) {
        Err(e) => stop(s, e),
        Ok(()) => match (opt_view(m.base), opt_view(m.base_tag)) {
            (Some(b), Some(_)) => (at(s, CheckStage::Base), CheckActionView::Resolve(b)),
            _ => entries_step(s),
        },
    }
}

/// One step of the check of a release: what it decides on what came of its last action.
pub open spec fn check_next(s: CheckView, e: CheckEventView) -> (CheckView, CheckActionView) {
    match (s.stage, e) {
        (CheckStage::Settings, CheckEventView::File(r)) => match file_settings(r) {
            Err(x) => stop(s, x),
            Ok(None) => (at(s, CheckStage::Done), CheckActionView::Finish(Ok(None))),
            Ok(Some(v)) => (
                CheckView { stage: CheckStage::Parent, initial: v, ..s },
                CheckActionView::ReadText(parents_args(s.revision)),
            ),
        },
        (CheckStage::Parent, CheckEventView::Text(r)) => match r {
            Err(x) => stop(s, x),
            Ok(line) => match parent_of(line) {
                Err(x) => stop(s, x),
                Ok(p) => (
                    CheckView { stage: CheckStage::Description, parent: p, ..s },
                    CheckActionView::ReadText(message_args(s.revision)),
                ),
            },
        },
        (CheckStage::Description, CheckEventView::Text(r)) => match r {
            Err(x) => stop(s, x),
            Ok(d) => (
                CheckView { stage: CheckStage::Before, description: d, ..s },
                CheckActionView::ReadFile(s.parent, manifest_path()),
            ),
        },
        (CheckStage::Before, CheckEventView::File(r)) => (
            CheckView { stage: CheckStage::After, before: r, ..s },
            CheckActionView::ReadFile(s.revision, manifest_path()),
        ),
        (CheckStage::After, CheckEventView::File(r)) => (
            CheckView { stage: CheckStage::OldLog, after: r, ..s },
            CheckActionView::ReadFile(s.parent, changelog_path()),
        ),
        (CheckStage::OldLog, CheckEventView::File(r)) => (
            CheckView { stage: CheckStage::Log, old_log: r, ..s },
            CheckActionView::ReadFile(s.revision, changelog_path()),
        ),
        (CheckStage::Log, CheckEventView::File(r)) => match changes_verdict(s.description, s.before, s.after, s.old_log, r) {
            Err(x) => stop(s, x),
            Ok(None) => (at(s, CheckStage::Done), CheckActionView::Finish(Ok(None))),
            Ok(Some((d, old, all))) => (
                CheckView { stage: CheckStage::Metadata, description: d, old_entries: old, entries: all, ..s },
                CheckActionView::ParseManifest(match s.after {
                    Ok(Some(t)) => t,
                    _ => Seq::empty(),
                }),
            ),
        },
        (CheckStage::Metadata, CheckEventView::Manifest(r)) => match manifest_verdict(r) {
            Err(x) => stop(s, x),
            Ok(m) => match s.before {
                Ok(Some(t)) => (
                    CheckView { stage: CheckStage::ParentMetadata, metadata: Some(m), ..s },
                    CheckActionView::ParseManifest(t),
                ),
                _ => (
                    CheckView { stage: CheckStage::Normalized, metadata: Some(m), parent_metadata: None, ..s },
                    CheckActionView::Normalized(s.revision),
                ),
            },
        },
        (CheckStage::ParentMetadata, CheckEventView::Manifest(r)) => match manifest_verdict(r) {
            Err(x) => stop(s, x),
            Ok(p) => (
                CheckView { stage: CheckStage::Normalized, parent_metadata: Some(p), ..s },
                CheckActionView::Normalized(s.revision),
            ),
        },
        (CheckStage::Normalized, CheckEventView::Text(r)) => match r {
            Err(x) => metadata_step(s, Err(x)),
            Ok(content) => (
                at(s, CheckStage::Fingerprint),
                CheckActionView::Hash(fingerprint_json(content, opt_view(held(s).base), opt_view(held(s).base_tag))),
            ),
        },
        (CheckStage::Fingerprint, CheckEventView::Text(r)) => metadata_step(s, r),
        (CheckStage::Base, CheckEventView::Text(r)) => match r {
            Err(x) => stop(s, x),
            Ok(b) => (
                CheckView { stage: CheckStage::MergeBase, resolved: b, ..s },
                CheckActionView::ReadBytes(merge_base_args(b, s.parent)),
            ),
        },
        (CheckStage::MergeBase, CheckEventView::Bytes(r)) => match base_verdict(
            s.resolved,
            r,
            match opt_view(held(s).base_tag) {
                Some(t) => t,
                None => Seq::empty(),
            },
        ) {
            Err(x) => stop(s, x),
            Ok(()) => entries_step(s),
        },
        (CheckStage::NotesHash, CheckEventView::Text(r)) => match r {
            Err(x) => stop(s, x),
            Ok(h) => if h == held(s).notes_hash@ {
                (
                    CheckView { stage: CheckStage::Done, metadata: None, ..s },
                    CheckActionView::Finish(Ok(Some((held(s), s.notes)))),
                )
            } else {
                stop(s, notes_changed_error())
            },
        },
        _ => (s, CheckActionView::Finish(Err(Seq::empty()))),
    }
}

/// Which kind of answer each stage waits for.
pub open spec fn answers(stage: CheckStage, event: CheckEventView) -> bool {
    match stage {
        CheckStage::Settings | CheckStage::Before | CheckStage::After | CheckStage::OldLog | CheckStage::Log => event is File,
        CheckStage::Parent | CheckStage::Description | CheckStage::Normalized | CheckStage::Fingerprint
        | CheckStage::Base | CheckStage::NotesHash => event is Text,
        CheckStage::Metadata | CheckStage::ParentMetadata => event is Manifest,
        CheckStage::MergeBase => event is Bytes,
        CheckStage::Done => false,
    }
}

/// What a check holds at each stage: the manifest once it is parsed.
pub open spec fn well_formed(s: CheckView) -> bool {
    &&& crate::version::valid_prerelease(s.initial.3)
    &&& match s.stage {
        CheckStage::ParentMetadata | CheckStage::Normalized | CheckStage::Fingerprint | CheckStage::Base
        | CheckStage::MergeBase | CheckStage::NotesHash => s.metadata is Some,
        _ => true,
    }
}

/// The verdict of a release check: it accepts a release only at its last step, with the
/// manifest it parsed and the notes of the commit's changelog entry, when they hash as the
/// manifest recorded; it finds no release only where the configuration enables none or
/// the commit's message does not release (and changed no release); those notes are what
/// the entry holds after the version's heading, validated.
pub proof fn lemma_check_verdicts(s: CheckView, e: CheckEventView)
    requires
        well_formed(s),
    ensures
        check_next(s, e).1 matches CheckActionView::Finish(Ok(Some((m, n)))) ==> s.stage is NotesHash && s.metadata
            == Some(m) && n == s.notes && e == CheckEventView::Text(Ok(m.notes_hash@)),
        check_next(s, e).1 == CheckActionView::Finish(Ok(None)) ==> (s.stage is Settings && (e matches CheckEventView::File(r)
            && file_settings(r) == Ok::<Option<(u64, u64, u64, Seq<char>, Seq<char>)>, Seq<char>>(None))) || (s.stage is Log && (e
            matches CheckEventView::File(r) && changes_verdict(s.description, s.before, s.after, s.old_log, r) == Ok::<
            Option<(Seq<char>, Seq<Seq<char>>, Seq<Seq<char>>)>,
            Seq<char>,
        >(None))),
        check_next(s, e).0.stage is NotesHash && !(s.stage is NotesHash) ==> entry_notes(held(s).version@, s.old_entries, s.entries)
            == Ok::<Seq<char>, Seq<char>>(check_next(s, e).0.notes),
{
}

pub(crate) fn copy_text(s: &str) -> (r: String)
    ensures
        r@ == s@,
{
    String::from_str(s)
}

pub(crate) fn args(items: &[&str]) -> (r: Vec<String>)
    ensures
        strings_view(r@) == items@.map_values(|f: &str| f@),
{
    let mut v: Vec<String> = Vec::new();
    push_all(&mut v, items);
    assert(strings_view(Seq::<String>::empty()) =~= Seq::<Seq<char>>::empty());
    v
}

fn copy_result(r: &Result<Option<String>, String>) -> (c: Result<Option<String>, String>)
    ensures
        opt_result(c) == opt_result(*r),
{
    match r {
        Ok(Some(t)) => Ok(Some(copy_text(t.as_str()))),
        Ok(None) => Ok(None),
        Err(e) => Err(copy_text(e.as_str())),
    }
}

pub(crate) fn opt_ref(o: &Option<String>) -> (r: Option<&str>)
    ensures
        opt_text(r) == opt_view(*o),
{
    match o {
        Some(s) => Some(s.as_str()),
        None => None,
    }
}

impl ReleaseCheck {
    /// The check of the release of `revision` (a resolved commit), and its first action: the
    /// configuration file.
    pub fn start(revision: String) -> (r: (ReleaseCheck, CheckAction))
        ensures
            r.0@.stage == CheckStage::Settings,
            r.0@.revision == revision@,
            well_formed(r.0@),
            r.1@ == CheckActionView::ReadFile(revision@, config_path()),
    {
        let path = copy_text(revision.as_str());
        let check = ReleaseCheck {
            stage: CheckStage::Settings,
            revision,
            initial: Version::new(0, 1, 0),
            parent: String::new(),
            description: String::new(),
            before: Ok(None),
            after: Ok(None),
            old_log: Ok(None),
            old_entries: Vec::new(),
            entries: Vec::new(),
            metadata: None,
            parent_metadata: None,
            resolved: String::new(),
            notes: String::new(),
        };
        (check, CheckAction::ReadFile(path, String::from_str("clean-dev-cycle.toml")))
    }

    /// Whether `event` is the kind of answer that the check waits for.
    pub fn accepts(&self, event: &CheckEvent) -> (r: bool)
        ensures
            r == answers(self.stage, event@),
    {
        match (self.stage, event) {
            (CheckStage::Settings, CheckEvent::File(_)) | (CheckStage::Before, CheckEvent::File(_))
            | (CheckStage::After, CheckEvent::File(_)) | (CheckStage::OldLog, CheckEvent::File(_))
            | (CheckStage::Log, CheckEvent::File(_)) => true,
            (CheckStage::Parent, CheckEvent::Text(_)) | (CheckStage::Description, CheckEvent::Text(_))
            | (CheckStage::Normalized, CheckEvent::Text(_)) | (CheckStage::Fingerprint, CheckEvent::Text(_))
            | (CheckStage::Base, CheckEvent::Text(_)) | (CheckStage::NotesHash, CheckEvent::Text(_)) => true,
            (CheckStage::Metadata, CheckEvent::Manifest(_)) | (CheckStage::ParentMetadata, CheckEvent::Manifest(_)) => true,
            (CheckStage::MergeBase, CheckEvent::Bytes(_)) => true,
            _ => false,
        }
    }

    fn fail(&mut self, e: String) -> (a: CheckAction)
        ensures
            (final(self)@, a@) == stop(old(self)@, e@),
    {
        self.stage = CheckStage::Done;
        CheckAction::Finish(Err(e))
    }

    fn entries_step(&mut self) -> (a: CheckAction)
        requires
            old(self).metadata is Some,
        ensures
            (final(self)@, a@) == entries_step(old(self)@),
            final(self).metadata is Some,
            final(self).initial@ == old(self).initial@,
    {
        let notes = match &self.metadata {
            Some(m) => check_entries(m.version.as_str(), &self.old_entries, &self.entries),
            None => Err(String::new()),
        };
        match notes {
            Err(e) => self.fail(e),
            Ok(n) => {
                self.stage = CheckStage::NotesHash;
                let h = copy_text(n.as_str());
                self.notes = n;
                CheckAction::Hash(h)
            },
        }
    }

    fn metadata_step(&mut self, fingerprint: Result<String, String>) -> (a: CheckAction)
        requires
            old(self).metadata is Some,
            crate::version::valid_prerelease(old(self).initial@.3),
        ensures
            (final(self)@, a@) == metadata_step(old(self)@, text_result_of(fingerprint)),
            final(self).metadata is Some,
            final(self).initial@ == old(self).initial@,
    {
        let verdict = match &self.metadata {
            Some(m) => check_metadata(
                m,
                match &self.parent_metadata {
                    Some(p) => Some(p),
                    None => None,
                },
                self.parent.as_str(),
                self.description.as_str(),
                &self.initial,
                fingerprint,
            ),
            None => Err(String::new()),
        };
        if let Err(e) = verdict {
            return self.fail(e);
        }
        let base = match &self.metadata {
            Some(m) => match (&m.base, &m.base_tag) {
                (Some(b), Some(_)) => Some(copy_text(b.as_str())),
                _ => None,
            },
            None => None,
        };
        match base {
            Some(b) => {
                self.stage = CheckStage::Base;
                CheckAction::Resolve(b)
            },
            None => self.entries_step(),
        }
    }

    /// Takes what came of the last action and gives the next one (see `check_next`).
    pub fn advance(&mut self, event: CheckEvent) -> (a: CheckAction)
        requires
            well_formed(old(self)@),
            answers(old(self).stage, event@),
        ensures
            (final(self)@, a@) == check_next(old(self)@, event@),
            well_formed(final(self)@),
    {
        match (self.stage, event) {
            (CheckStage::Settings, CheckEvent::File(r)) => match settings_from_file(r) {
                Err(e) => self.fail(e),
                Ok(None) => {
                    self.stage = CheckStage::Done;
                    CheckAction::Finish(Ok(None))
                },
                Ok(Some(v)) => {
                    self.stage = CheckStage::Parent;
                    self.initial = v;
                    let a = args(&["rev-list", "--parents", "-n", "1", self.revision.as_str()]);
                    assert(strings_view(a@) =~= parents_args(self.revision@));
                    CheckAction::ReadText(a)
                },
            },
            (CheckStage::Parent, CheckEvent::Text(r)) => match r {
                Err(e) => self.fail(e),
                Ok(line) => match parent(line.as_str()) {
                    Err(e) => self.fail(e),
                    Ok(p) => {
                        self.stage = CheckStage::Description;
                        self.parent = p;
                        let a = args(&["show", "-s", "--format=%B", self.revision.as_str()]);
                        assert(strings_view(a@) =~= message_args(self.revision@));
                        CheckAction::ReadText(a)
                    },
                },
            },
            (CheckStage::Description, CheckEvent::Text(r)) => match r {
                Err(e) => self.fail(e),
                Ok(d) => {
                    self.stage = CheckStage::Before;
                    self.description = d;
                    CheckAction::ReadFile(copy_text(self.parent.as_str()), String::from_str(".clean-dev-cycle-release.json"))
                },
            },
            (CheckStage::Before, CheckEvent::File(r)) => {
                self.stage = CheckStage::After;
                self.before = r;
                CheckAction::ReadFile(copy_text(self.revision.as_str()), String::from_str(".clean-dev-cycle-release.json"))
            },
            (CheckStage::After, CheckEvent::File(r)) => {
                self.stage = CheckStage::OldLog;
                self.after = r;
                CheckAction::ReadFile(copy_text(self.parent.as_str()), String::from_str("CHANGELOG.md"))
            },
            (CheckStage::OldLog, CheckEvent::File(r)) => {
                self.stage = CheckStage::Log;
                self.old_log = r;
                CheckAction::ReadFile(copy_text(self.revision.as_str()), String::from_str("CHANGELOG.md"))
            },
            (CheckStage::Log, CheckEvent::File(r)) => {
                let verdict = check_changes(
                    self.description.as_str(),
                    copy_result(&self.before),
                    copy_result(&self.after),
                    copy_result(&self.old_log),
                    r,
                );
                match verdict {
                    Err(e) => self.fail(e),
                    Ok(None) => {
                        self.stage = CheckStage::Done;
                        CheckAction::Finish(Ok(None))
                    },
                    Ok(Some(c)) => {
                        self.stage = CheckStage::Metadata;
                        self.description = c.description;
                        self.old_entries = c.old_entries;
                        self.entries = c.entries;
                        let text = match &self.after {
                            Ok(Some(t)) => copy_text(t.as_str()),
                            _ => String::new(),
                        };
                        CheckAction::ParseManifest(text)
                    },
                }
            },
            (CheckStage::Metadata, CheckEvent::Manifest(r)) => match manifest(Some(r)) {
                Err(e) => self.fail(e),
                Ok(None) => self.fail(String::new()),
                Ok(Some(m)) => {
                    self.metadata = Some(m);
                    match &self.before {
                        Ok(Some(t)) => {
                            let text = copy_text(t.as_str());
                            self.stage = CheckStage::ParentMetadata;
                            CheckAction::ParseManifest(text)
                        },
                        _ => {
                            self.stage = CheckStage::Normalized;
                            self.parent_metadata = None;
                            CheckAction::Normalized(copy_text(self.revision.as_str()))
                        },
                    }
                },
            },
            (CheckStage::ParentMetadata, CheckEvent::Manifest(r)) => match manifest(Some(r)) {
                Err(e) => self.fail(e),
                Ok(None) => self.fail(String::new()),
                Ok(Some(p)) => {
                    self.stage = CheckStage::Normalized;
                    self.parent_metadata = Some(p);
                    CheckAction::Normalized(copy_text(self.revision.as_str()))
                },
            },
            (CheckStage::Normalized, CheckEvent::Text(r)) => match r {
                Err(e) => self.metadata_step(Err(e)),
                Ok(content) => {
                    let data = match &self.metadata {
                        Some(m) => fingerprint_data(content.as_str(), opt_ref(&m.base), opt_ref(&m.base_tag)),
                        None => String::new(),
                    };
                    self.stage = CheckStage::Fingerprint;
                    CheckAction::Hash(data)
                },
            },
            (CheckStage::Fingerprint, CheckEvent::Text(r)) => self.metadata_step(r),
            (CheckStage::Base, CheckEvent::Text(r)) => match r {
                Err(e) => self.fail(e),
                Ok(b) => {
                    let a = args(&["merge-base", b.as_str(), self.parent.as_str()]);
                    assert(strings_view(a@) =~= merge_base_args(b@, self.parent@));
                    self.stage = CheckStage::MergeBase;
                    self.resolved = b;
                    CheckAction::ReadBytes(a)
                },
            },
            (CheckStage::MergeBase, CheckEvent::Bytes(r)) => {
                let empty = String::new();
                let verdict = match &self.metadata {
                    Some(m) => check_base(
                        self.resolved.as_str(),
                        r,
                        match &m.base_tag {
                            Some(t) => t.as_str(),
                            None => empty.as_str(),
                        },
                    ),
                    None => Err(String::new()),
                };
                match verdict {
                    Err(e) => self.fail(e),
                    Ok(()) => self.entries_step(),
                }
            },
            (CheckStage::NotesHash, CheckEvent::Text(r)) => match r {
                Err(e) => self.fail(e),
                Ok(h) => {
                    let same = match &self.metadata {
                        Some(m) => crate::text::same_chars(
                            &crate::text::chars_of(h.as_str()),
                            &crate::text::chars_of(m.notes_hash.as_str()),
                        ),
                        None => false,
                    };
                    if same {
                        self.stage = CheckStage::Done;
                        let m = self.metadata.take();
                        let notes = copy_text(self.notes.as_str());
                        match m {
                            Some(m) => CheckAction::Finish(Ok(Some((m, notes)))),
                            None => CheckAction::Finish(Err(String::new())),
                        }
                    } else {
                        let mut m = String::from_str("notas alteradas após a revisão. ");
                        m.append("Reabra a mudança com jj edit e conclua com clean-dev-cycle commit para preparar a release.");
                        self.fail(m)
                    }
                },
            },
            (_, _) => CheckAction::Finish(Err(String::new())),
        }
    }
}

} // verus!
