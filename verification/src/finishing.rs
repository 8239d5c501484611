//! Finishing a change that prepared a release, atomically: the prepared files are staged
//! in a temporary workspace at the reviewed operation, squashed into the change and
//! committed without integrating; only when the result holds exactly the reviewed tree,
//! passes the release check and the workspace did not move is the operation integrated.
//! The caller drives the machine: each step takes the answer to the last request.
use vstd::prelude::*;
use vstd::string::*;
use crate::git::{line_bytes, prints_line};
use crate::jj::{RevisionView, Revision, Snapshot, identity_error, moved_error};
use crate::message::text_result;
use crate::submit::{opt_view, strings_of};
use crate::text::{chars_of, is_blank, string_of, trim, trim_chars};

verus! {

/// The files that a release preparation writes, in the order they are staged.
pub open spec fn release_files() -> Seq<Seq<char>> {
    seq!["CHANGELOG.md"@, ".clean-dev-cycle-release.json"@]
}

#[derive(Debug)]
pub enum FinishAction {
    /// Run `jj` with these arguments (`isolated` when they leave the operation
    /// unintegrated) and answer with `Ran`.
    Jj { args: Vec<String>, isolated: bool },
    /// Take a snapshot of the workspace (the temporary one at `workspace` when given) and
    /// answer with `Snapped`.
    Snapshot { workspace: Option<String> },
    /// Create a temporary directory and answer with `Created`: the workspace's name and
    /// the directory to hold it.
    TempDir,
    /// Read `path` in the prepared tree `tree` and answer with `FileText`.
    File { tree: String, path: String },
    /// Write `content` to `path` in the temporary workspace at `root` and answer with
    /// `Wrote`.
    Write { root: String, path: String, content: String },
    /// Report a change (at `operation`) and answer with `Reported`.
    Show { target: String, operation: String },
    /// Run `git` with these arguments and answer with `Read`.
    Git(Vec<String>),
    /// Check the release of this commit and answer with `Checked`.
    Check(String),
    /// The end.
    Finish(Result<(), String>),
}

#[derive(Debug)]
pub enum FinishEvent {
    Ran(Result<String, String>),
    Snapped(Result<Snapshot, String>),
    Created(Result<(String, String), String>),
    FileText(Result<Option<String>, String>),
    Wrote(Result<(), String>),
    Reported(Result<Revision, String>),
    Read(Result<Vec<u8>, String>),
    Checked(Result<(), String>),
}

pub enum FinishActionView {
    Jj(Seq<Seq<char>>, bool),
    Snapshot(Option<Seq<char>>),
    TempDir,
    File(Seq<char>, Seq<char>),
    Write(Seq<char>, Seq<char>, Seq<char>),
    Show(Seq<char>, Seq<char>),
    Git(Seq<Seq<char>>),
    Check(Seq<char>),
    Finish(Result<(), Seq<char>>),
}

pub enum FinishEventView {
    Ran(Result<Seq<char>, Seq<char>>),
    Snapped(Result<(Seq<char>, RevisionView), Seq<char>>),
    Created(Result<(Seq<char>, Seq<char>), Seq<char>>),
    FileText(Result<Option<Seq<char>>, Seq<char>>),
    Wrote(Result<(), Seq<char>>),
    Reported(Result<RevisionView, Seq<char>>),
    Read(Result<Seq<u8>, Seq<char>>),
    Checked(Result<(), Seq<char>>),
}

pub open spec fn unit_view(r: Result<(), String>) -> Result<(), Seq<char>> {
    match r {
        Ok(()) => Ok(()),
        Err(e) => Err(e@),
    }
}

impl View for FinishAction {
    type V = FinishActionView;

    open spec fn view(&self) -> FinishActionView {
        match self {
            FinishAction::Jj { args, isolated } => FinishActionView::Jj(strings_of(*args), *isolated),
            FinishAction::Snapshot { workspace } => FinishActionView::Snapshot(opt_view(*workspace)),
            FinishAction::TempDir => FinishActionView::TempDir,
            FinishAction::File { tree, path } => FinishActionView::File(tree@, path@),
            FinishAction::Write { root, path, content } => FinishActionView::Write(root@, path@, content@),
            FinishAction::Show { target, operation } => FinishActionView::Show(target@, operation@),
            FinishAction::Git(a) => FinishActionView::Git(strings_of(*a)),
            FinishAction::Check(c) => FinishActionView::Check(c@),
            FinishAction::Finish(r) => FinishActionView::Finish(unit_view(*r)),
        }
    }
}

impl View for FinishEvent {
    type V = FinishEventView;

    open spec fn view(&self) -> FinishEventView {
        match self {
            FinishEvent::Ran(r) => FinishEventView::Ran(text_result(*r)),
            FinishEvent::Snapped(r) => FinishEventView::Snapped(match r {
                Ok(s) => Ok(s@),
                Err(e) => Err(e@),
            }),
            FinishEvent::Created(r) => FinishEventView::Created(match r {
                Ok((n, d)) => Ok((n@, d@)),
                Err(e) => Err(e@),
            }),
            FinishEvent::FileText(r) => FinishEventView::FileText(match r {
                Ok(Some(t)) => Ok(Some(t@)),
                Ok(None) => Ok(None),
                Err(e) => Err(e@),
            }),
            FinishEvent::Wrote(r) => FinishEventView::Wrote(unit_view(*r)),
            FinishEvent::Reported(r) => FinishEventView::Reported(match r {
                Ok(v) => Ok(v@),
                Err(e) => Err(e@),
            }),
            FinishEvent::Read(r) => FinishEventView::Read(crate::git::bytes_result(*r)),
            FinishEvent::Checked(r) => FinishEventView::Checked(unit_view(*r)),
        }
    }
}

/// The stages of finishing a release, each waiting for the answer to one request.
#[derive(Debug)]
pub enum FinishStage {
    Name,
    Email,
    Unchanged,
    Temp,
    Added,
    FileRead,
    FileWritten,
    Isolated,
    Forgotten,
    Expected,
    Squashed,
    Committed,
    Shown,
    TreeRead,
    Checked,
    Settled,
    Integrated,
    Updated,
    Status,
    Done,
}

/// Finishing a release in progress.
#[derive(Debug)]
pub struct ReleaseFinish {
    pub stage: FinishStage,
    pub snapshot: Snapshot,
    pub message: String,
    pub tree: String,
    /// The temporary workspace: its name and directory.
    pub workspace: Option<(String, String)>,
    /// The prepared file being staged (its index in the list of release files).
    pub file: usize,
    /// The error of staging, reported once the temporary workspace is forgotten.
    pub problem: Option<String>,
    /// The snapshot of the temporary workspace once the files are staged.
    pub staged: Option<Snapshot>,
    /// The snapshot of the user's workspace before the integration.
    pub expected: Option<Snapshot>,
    /// The operation that committed the change, not yet integrated.
    pub finished: Option<String>,
    /// The commit that this operation made of the change.
    pub committed: Option<String>,
}

pub struct FinishView {
    pub stage: FinishStage,
    pub snapshot: (Seq<char>, RevisionView),
    pub message: Seq<char>,
    pub tree: Seq<char>,
    pub workspace: Option<(Seq<char>, Seq<char>)>,
    pub file: nat,
    pub problem: Option<Seq<char>>,
    pub staged: Option<(Seq<char>, RevisionView)>,
    pub expected: Option<(Seq<char>, RevisionView)>,
    pub finished: Option<Seq<char>>,
    pub committed: Option<Seq<char>>,
}

pub open spec fn snap_view(s: Option<Snapshot>) -> Option<(Seq<char>, RevisionView)> {
    match s {
        Some(x) => Some(x@),
        None => None,
    }
}

impl View for ReleaseFinish {
    type V = FinishView;

    open spec fn view(&self) -> FinishView {
        FinishView {
            stage: self.stage,
            snapshot: self.snapshot@,
            message: self.message@,
            tree: self.tree@,
            workspace: match self.workspace {
                Some((n, d)) => Some((n@, d@)),
                None => None,
            },
            file: self.file as nat,
            problem: opt_view(self.problem),
            staged: snap_view(self.staged),
            expected: snap_view(self.expected),
            finished: opt_view(self.finished),
            committed: opt_view(self.committed),
        }
    }
}

pub open spec fn config_args(field: Seq<char>) -> Seq<Seq<char>> {
    seq!["--ignore-working-copy"@, "config"@, "get"@, field]
}

pub open spec fn missing_file_error() -> Seq<char> {
    "arquivo preparado ausente."@
}

pub open spec fn temporary_error(e: Seq<char>) -> Seq<char> {
    "workspace temporário: "@ + e
}

pub open spec fn original_error(e: Seq<char>) -> Seq<char> {
    "workspace original antes da integração: "@ + e
}

pub open spec fn moved_during_error() -> Seq<char> {
    "a mudança mudou durante a preparação isolada. Revise e execute novamente."@
}

pub open spec fn diverged_error() -> Seq<char> {
    "a operação isolada diverge dos arquivos revisados; nada foi integrado."@
}

pub open spec fn cancelled_error() -> Seq<char> {
    "operação cancelada."@
}

/// Whether `event` answers the request of stage `stage`.
pub open spec fn answers(stage: FinishStage, event: FinishEventView) -> bool {
    match stage {
        FinishStage::Name | FinishStage::Email | FinishStage::Added | FinishStage::Forgotten | FinishStage::Squashed
        | FinishStage::Committed | FinishStage::Integrated | FinishStage::Updated | FinishStage::Status => event is Ran,
        FinishStage::Unchanged | FinishStage::Isolated | FinishStage::Expected | FinishStage::Settled => event is Snapped,
        FinishStage::Temp => event is Created,
        FinishStage::FileRead => event is FileText,
        FinishStage::FileWritten => event is Wrote,
        FinishStage::Shown => event is Reported,
        FinishStage::TreeRead => event is Read,
        FinishStage::Checked => event is Checked,
        FinishStage::Done => false,
    }
}

/// Whether a state holds what its stage needs.
pub open spec fn well_formed(s: FinishView) -> bool {
    &&& s.file < 2
    &&& (s.stage is Added || s.stage is FileRead || s.stage is FileWritten || s.stage is Isolated || s.stage is Forgotten
        ==> s.workspace is Some)
    &&& (s.stage is Forgotten ==> s.problem is Some || s.staged is Some)
    &&& (s.stage is Expected ==> s.staged is Some)
    &&& (s.stage is Squashed || s.stage is Committed || s.stage is Shown || s.stage is TreeRead || s.stage is Checked
        || s.stage is Settled || s.stage is Integrated ==> s.expected is Some && s.staged is Some)
    &&& (s.stage is Shown || s.stage is TreeRead || s.stage is Checked || s.stage is Settled || s.stage is Integrated
        ==> s.finished is Some)
    &&& (s.stage is TreeRead || s.stage is Checked ==> s.committed is Some)
}

pub open spec fn at(s: FinishView, stage: FinishStage) -> FinishView {
    FinishView { stage, ..s }
}

pub open spec fn fail(s: FinishView, e: Seq<char>) -> (FinishView, FinishActionView) {
    (at(s, FinishStage::Done), FinishActionView::Finish(Err(e)))
}

pub open spec fn forget(s: FinishView) -> FinishActionView {
    FinishActionView::Jj(seq!["--ignore-working-copy"@, "workspace"@, "forget"@, s.workspace.unwrap().0], false)
}

/// One step of finishing a release (see the module's description): from the state and
/// the answer to its request, the next state and request. The identity must be complete
/// and the workspace unchanged; the temporary workspace is forgotten whatever happens to
/// the staging, whose error comes first; the change must not move; the committed tree
/// must be the reviewed one and pass the release check; the workspace must still be as
/// before; a cancellation stops everything before the integration.
pub open spec fn finish_next(s: FinishView, e: FinishEventView, cancelled: bool) -> (FinishView, FinishActionView) {
    match (s.stage, e) {
        (FinishStage::Name, FinishEventView::Ran(Err(x))) => fail(s, x),
        (FinishStage::Name, FinishEventView::Ran(Ok(v))) => if trim(v).len() == 0 {
            fail(s, identity_error("user.name"@))
        } else {
            (at(s, FinishStage::Email), FinishActionView::Jj(config_args("user.email"@), false))
        },
        (FinishStage::Email, FinishEventView::Ran(Err(x))) => fail(s, x),
        (FinishStage::Email, FinishEventView::Ran(Ok(v))) => if trim(v).len() == 0 {
            fail(s, identity_error("user.email"@))
        } else {
            (at(s, FinishStage::Unchanged), FinishActionView::Snapshot(None))
        },
        (FinishStage::Unchanged, FinishEventView::Snapped(Err(x))) => fail(s, x),
        (FinishStage::Unchanged, FinishEventView::Snapped(Ok(c))) => if c != s.snapshot {
            fail(s, moved_error())
        } else {
            (at(s, FinishStage::Temp), FinishActionView::TempDir)
        },
        (FinishStage::Temp, FinishEventView::Created(Err(x))) => fail(s, x),
        (FinishStage::Temp, FinishEventView::Created(Ok((name, root)))) => (
            FinishView { stage: FinishStage::Added, workspace: Some((name, root)), ..s },
            FinishActionView::Jj(
                seq!["--at-operation"@, s.snapshot.0, "workspace"@, "add"@, "--name"@, name, "--revision"@, s.snapshot.1.id, root],
                false,
            ),
        ),
        (FinishStage::Added, FinishEventView::Ran(Err(x))) => fail(s, x),
        (FinishStage::Added, FinishEventView::Ran(Ok(_))) => (
            FinishView { stage: FinishStage::FileRead, file: 0, ..s },
            FinishActionView::File(s.tree, release_files()[0]),
        ),
        (FinishStage::FileRead, FinishEventView::FileText(r)) => match r {
            Err(x) => (FinishView { stage: FinishStage::Forgotten, problem: Some(x), ..s }, forget(s)),
            Ok(None) => (FinishView { stage: FinishStage::Forgotten, problem: Some(missing_file_error()), ..s }, forget(s)),
            Ok(Some(content)) => (
                at(s, FinishStage::FileWritten),
                FinishActionView::Write(s.workspace.unwrap().1, release_files()[s.file as int], content),
            ),
        },
        (FinishStage::FileWritten, FinishEventView::Wrote(r)) => match r {
            Err(x) => (FinishView { stage: FinishStage::Forgotten, problem: Some(x), ..s }, forget(s)),
            Ok(()) => if s.file == 0 {
                (FinishView { stage: FinishStage::FileRead, file: 1, ..s }, FinishActionView::File(s.tree, release_files()[1]))
            } else {
                (at(s, FinishStage::Isolated), FinishActionView::Snapshot(Some(s.workspace.unwrap().1)))
            },
        },
        (FinishStage::Isolated, FinishEventView::Snapped(r)) => match r {
            Err(x) => (FinishView { stage: FinishStage::Forgotten, problem: Some(temporary_error(x)), ..s }, forget(s)),
            Ok(t) => (FinishView { stage: FinishStage::Forgotten, staged: Some(t), ..s }, forget(s)),
        },
        (FinishStage::Forgotten, FinishEventView::Ran(r)) => match s.problem {
            Some(x) => fail(s, x),
            None => match r {
                Err(x) => fail(s, x),
                Ok(_) => (at(s, FinishStage::Expected), FinishActionView::Snapshot(None)),
            },
        },
        (FinishStage::Expected, FinishEventView::Snapped(Err(x))) => fail(s, original_error(x)),
        (FinishStage::Expected, FinishEventView::Snapped(Ok(x))) => if x.1 != s.snapshot.1 {
            fail(s, moved_during_error())
        } else {
            (
                FinishView { stage: FinishStage::Squashed, expected: Some(x), ..s },
                FinishActionView::Jj(
                    seq![
                        "--at-operation"@,
                        x.0,
                        "--no-integrate-operation"@,
                        "squash"@,
                        "--from"@,
                        s.staged.unwrap().1.id,
                        "--into"@,
                        s.snapshot.1.id,
                        "--message"@,
                        s.message,
                    ],
                    true,
                ),
            )
        },
        (FinishStage::Squashed, FinishEventView::Ran(Err(x))) => fail(s, x),
        (FinishStage::Squashed, FinishEventView::Ran(Ok(op))) => (
            at(s, FinishStage::Committed),
            FinishActionView::Jj(
                seq!["--at-operation"@, trim(op), "--no-integrate-operation"@, "commit"@, "--message"@, s.message],
                true,
            ),
        ),
        (FinishStage::Committed, FinishEventView::Ran(Err(x))) => fail(s, x),
        (FinishStage::Committed, FinishEventView::Ran(Ok(op))) => (
            FinishView { stage: FinishStage::Shown, finished: Some(trim(op)), ..s },
            FinishActionView::Show("@-"@, trim(op)),
        ),
        (FinishStage::Shown, FinishEventView::Reported(Err(x))) => fail(s, x),
        (FinishStage::Shown, FinishEventView::Reported(Ok(r))) => (
            FinishView { stage: FinishStage::TreeRead, committed: Some(r.id), ..s },
            FinishActionView::Git(seq!["rev-parse"@, r.id + "^{tree}"@]),
        ),
        (FinishStage::TreeRead, FinishEventView::Read(Err(x))) => fail(s, x),
        (FinishStage::TreeRead, FinishEventView::Read(Ok(b))) => if b != line_bytes(s.tree) {
            fail(s, diverged_error())
        } else {
            (at(s, FinishStage::Checked), FinishActionView::Check(s.committed.unwrap()))
        },
        (FinishStage::Checked, FinishEventView::Checked(Err(x))) => fail(s, x),
        (FinishStage::Checked, FinishEventView::Checked(Ok(()))) => (at(s, FinishStage::Settled), FinishActionView::Snapshot(None)),
        (FinishStage::Settled, FinishEventView::Snapped(Err(x))) => fail(s, x),
        (FinishStage::Settled, FinishEventView::Snapped(Ok(c))) => if c != s.expected.unwrap() {
            fail(s, moved_error())
        } else if cancelled {
            fail(s, cancelled_error())
        } else {
            (
                at(s, FinishStage::Integrated),
                FinishActionView::Jj(seq!["--at-operation"@, s.expected.unwrap().0, "op"@, "integrate"@, s.finished.unwrap()], false),
            )
        },
        (FinishStage::Integrated, FinishEventView::Ran(Err(x))) => fail(s, x),
        (FinishStage::Integrated, FinishEventView::Ran(Ok(_))) => (
            at(s, FinishStage::Updated),
            FinishActionView::Jj(seq!["workspace"@, "update-stale"@], false),
        ),
        (FinishStage::Updated, FinishEventView::Ran(Err(x))) => fail(s, x),
        (FinishStage::Updated, FinishEventView::Ran(Ok(_))) => (at(s, FinishStage::Status), FinishActionView::Jj(seq!["status"@], false)),
        (FinishStage::Status, FinishEventView::Ran(Err(x))) => fail(s, x),
        (FinishStage::Status, FinishEventView::Ran(Ok(_))) => (at(s, FinishStage::Done), FinishActionView::Finish(Ok(()))),
        _ => (s, FinishActionView::Finish(Err(Seq::empty()))),
    }
}

/// Nothing is integrated before a successful release check: the integration of the
/// committed operation is asked for only from a settled workspace, reached only after
/// the check passed, which is asked for only once the committed tree is the reviewed one;
/// and only when the workspace did not move and no cancellation came.
pub proof fn lemma_integration_follows_the_check(s: FinishView, e: FinishEventView, cancelled: bool)
    ensures
        finish_next(s, e, cancelled).0.stage is Integrated ==> s.stage is Integrated || (s.stage is Settled && !cancelled
            && (e matches FinishEventView::Snapped(Ok(c)) && c == s.expected.unwrap())),
        finish_next(s, e, cancelled).0.stage is Settled ==> s.stage is Settled || (s.stage is Checked && (e matches
            FinishEventView::Checked(r) && r is Ok)),
        finish_next(s, e, cancelled).0.stage is Checked ==> s.stage is Checked || (s.stage is TreeRead && e
            == FinishEventView::Read(Ok(line_bytes(s.tree)))),
        s.stage is Checked && (e matches FinishEventView::Checked(Err(x))) ==> finish_next(s, e, cancelled).0.stage is Done,
{
}

fn push_text(v: &mut Vec<String>, s: &str)
    ensures
        strings_of(*final(v)) == strings_of(*old(v)).push(s@),
{
    let ghost before = strings_of(*v);
    v.push(String::from_str(s));
    assert(strings_of(*v) =~= before.push(s@));
}

fn texts(items: &[&str]) -> (r: Vec<String>)
    ensures
        strings_of(r) == items@.map_values(|x: &str| x@),
{
    let mut v: Vec<String> = Vec::new();
    let mut i: usize = 0;
    assert(strings_of(v) =~= items@.map_values(|x: &str| x@).take(0));
    while i < items.len()
        invariant
            i <= items@.len(),
            strings_of(v) == items@.map_values(|x: &str| x@).take(i as int),
        decreases items.len() - i,
    {
        push_text(&mut v, items[i]);
        assert(items@.map_values(|x: &str| x@).take(i + 1) =~= items@.map_values(|x: &str| x@).take(i as int).push(items@[i as int]@));
        i += 1;
    }
    assert(items@.map_values(|x: &str| x@).take(items@.len() as int) =~= items@.map_values(|x: &str| x@));
    v
}

fn file_path(i: usize) -> (r: String)
    requires
        i < 2,
    ensures
        r@ == release_files()[i as int],
{
    if i == 0 {
        String::from_str("CHANGELOG.md")
    } else {
        String::from_str(".clean-dev-cycle-release.json")
    }
}

fn trimmed(s: &String) -> (r: String)
    ensures
        r@ == trim(s@),
{
    let t = trim_chars(&chars_of(s.as_str()));
    assert(t@.subrange(0, t@.len() as int) == t@);
    string_of(&t, 0, t.len())
}


impl ReleaseFinish {
    /// Starts finishing the reviewed change of `snapshot` with `message` and the prepared
    /// tree `tree`: the first request reads the configured user name.
    pub fn start(snapshot: Snapshot, message: String, tree: String) -> (r: (ReleaseFinish, FinishAction))
        ensures
            r.0@ == (FinishView {
                stage: FinishStage::Name,
                snapshot: snapshot@,
                message: message@,
                tree: tree@,
                workspace: None,
                file: 0,
                problem: None,
                staged: None,
                expected: None,
                finished: None,
                committed: None,
            }),
            r.1@ == FinishActionView::Jj(config_args("user.name"@), false),
            well_formed(r.0@),
    {
        let items = ["--ignore-working-copy", "config", "get", "user.name"];
        let a = texts(&items);
        proof {
            assert(items@.map_values(|x: &str| x@) =~= config_args("user.name"@));
        }
        (
            ReleaseFinish {
                stage: FinishStage::Name,
                snapshot,
                message,
                tree,
                workspace: None,
                file: 0,
                problem: None,
                staged: None,
                expected: None,
                finished: None,
                committed: None,
            },
            FinishAction::Jj { args: a, isolated: false },
        )
    }
}

impl ReleaseFinish {
    /// Whether `event` answers the request that the machine waits for.
    pub fn accepts(&self, event: &FinishEvent) -> (r: bool)
        ensures
            r == answers(self.stage, event@),
    {
        match self.stage {
            FinishStage::Name | FinishStage::Email | FinishStage::Added | FinishStage::Forgotten | FinishStage::Squashed
            | FinishStage::Committed | FinishStage::Integrated | FinishStage::Updated | FinishStage::Status => matches!(event, FinishEvent::Ran(_)),
            FinishStage::Unchanged | FinishStage::Isolated | FinishStage::Expected | FinishStage::Settled => matches!(event, FinishEvent::Snapped(_)),
            FinishStage::Temp => matches!(event, FinishEvent::Created(_)),
            FinishStage::FileRead => matches!(event, FinishEvent::FileText(_)),
            FinishStage::FileWritten => matches!(event, FinishEvent::Wrote(_)),
            FinishStage::Shown => matches!(event, FinishEvent::Reported(_)),
            FinishStage::TreeRead => matches!(event, FinishEvent::Read(_)),
            FinishStage::Checked => matches!(event, FinishEvent::Checked(_)),
            FinishStage::Done => false,
        }
    }

    fn fail_with(&mut self, e: String) -> (a: FinishAction)
        ensures
            final(self)@ == at(old(self)@, FinishStage::Done),
            a@ == FinishActionView::Finish(Err(e@)),
    {
        self.stage = FinishStage::Done;
        FinishAction::Finish(Err(e))
    }

    fn forget_action(&self) -> (a: FinishAction)
        requires
            self@.workspace is Some,
        ensures
            a@ == forget(self@),
    {
        match &self.workspace {
            Some((name, _)) => {
                let items = ["--ignore-working-copy", "workspace", "forget", name.as_str()];
                let a = texts(&items);
                assert(items@.map_values(|x: &str| x@)
                    =~= seq!["--ignore-working-copy"@, "workspace"@, "forget"@, name@]);
                FinishAction::Jj { args: a, isolated: false }
            },
            None => FinishAction::TempDir,
        }
    }

    /// Takes the answer to the last request (and whether the user cancelled) and gives the
    /// next request (see `finish_next`).
    pub fn advance(&mut self, event: FinishEvent, cancelled: bool) -> (a: FinishAction)
        requires
            well_formed(old(self)@),
            answers(old(self).stage, event@),
        ensures
            (final(self)@, a@) == finish_next(old(self)@, event@, cancelled),
            well_formed(final(self)@),
    {
        match event {
            FinishEvent::Ran(r) => self.on_ran(r),
            FinishEvent::Snapped(r) => self.on_snapped(r, cancelled),
            FinishEvent::Created(r) => match r {
                Err(x) => self.fail_with(x),
                Ok((name, root)) => {
                    let items = [
                        "--at-operation",
                        self.snapshot.operation.as_str(),
                        "workspace",
                        "add",
                        "--name",
                        name.as_str(),
                        "--revision",
                        self.snapshot.revision.id.as_str(),
                        root.as_str(),
                    ];
                    let a = texts(&items);
                    assert(items@.map_values(|x: &str| x@) =~= seq![
                        "--at-operation"@,
                        self.snapshot@.0,
                        "workspace"@,
                        "add"@,
                        "--name"@,
                        name@,
                        "--revision"@,
                        self.snapshot@.1.id,
                        root@,
                    ]);
                    self.workspace = Some((name, root));
                    self.stage = FinishStage::Added;
                    FinishAction::Jj { args: a, isolated: false }
                },
            },
            FinishEvent::FileText(r) => match r {
                Err(x) => {
                    let a = self.forget_action();
                    self.problem = Some(x);
                    self.stage = FinishStage::Forgotten;
                    a
                },
                Ok(None) => {
                    let a = self.forget_action();
                    self.problem = Some(String::from_str("arquivo preparado ausente."));
                    self.stage = FinishStage::Forgotten;
                    a
                },
                Ok(Some(content)) => {
                    let root = match &self.workspace {
                        Some((_, d)) => d.clone(),
                        None => String::new(),
                    };
                    let path = file_path(self.file);
                    self.stage = FinishStage::FileWritten;
                    FinishAction::Write { root, path, content }
                },
            },
            FinishEvent::Wrote(r) => match r {
                Err(x) => {
                    let a = self.forget_action();
                    self.problem = Some(x);
                    self.stage = FinishStage::Forgotten;
                    a
                },
                Ok(()) => {
                    if self.file == 0 {
                        self.file = 1;
                        self.stage = FinishStage::FileRead;
                        FinishAction::File { tree: self.tree.clone(), path: file_path(1) }
                    } else {
                        let root = match &self.workspace {
                            Some((_, d)) => d.clone(),
                            None => String::new(),
                        };
                        self.stage = FinishStage::Isolated;
                        FinishAction::Snapshot { workspace: Some(root) }
                    }
                },
            },
            FinishEvent::Reported(r) => match r {
                Err(x) => self.fail_with(x),
                Ok(rev) => {
                    let mut spec = rev.id.clone();
                    spec.append("^{tree}");
                    let items = ["rev-parse", spec.as_str()];
                    let a = texts(&items);
                    assert(items@.map_values(|x: &str| x@) =~= seq!["rev-parse"@, rev@.id + "^{tree}"@]);
                    self.committed = Some(rev.id);
                    self.stage = FinishStage::TreeRead;
                    FinishAction::Git(a)
                },
            },
            FinishEvent::Read(r) => match r {
                Err(x) => self.fail_with(x),
                Ok(b) => {
                    if !prints_line(b.as_slice(), self.tree.as_str()) {
                        return self.fail_with(String::from_str(
                            "a operação isolada diverge dos arquivos revisados; nada foi integrado.",
                        ));
                    }
                    let c = match &self.committed {
                        Some(c) => c.clone(),
                        None => String::new(),
                    };
                    self.stage = FinishStage::Checked;
                    FinishAction::Check(c)
                },
            },
            FinishEvent::Checked(r) => match r {
                Err(x) => self.fail_with(x),
                Ok(()) => {
                    self.stage = FinishStage::Settled;
                    FinishAction::Snapshot { workspace: None }
                },
            },
        }
    }

    fn on_ran(&mut self, r: Result<String, String>) -> (a: FinishAction)
        requires
            well_formed(old(self)@),
            answers(old(self).stage, FinishEventView::Ran(text_result(r))),
        ensures
            forall|c: bool| (final(self)@, a@) == #[trigger] finish_next(old(self)@, FinishEventView::Ran(text_result(r)), c),
            well_formed(final(self)@),
    {
        if let FinishStage::Forgotten = self.stage {
            if let Some(p) = &self.problem {
                let e = p.clone();
                return self.fail_with(e);
            }
        }
        let out = match r {
            Err(x) => return self.fail_with(x),
            Ok(out) => out,
        };
        match self.stage {
            FinishStage::Name => {
                if is_blank(&chars_of(out.as_str())) {
                    let mut e = String::from_str("identidade do Jujutsu incompleta (");
                    e.append("user.name");
                    e.append("). Configure nome e e-mail com jj config set --repo user.name NOME e jj config set --repo user.email EMAIL antes de gerar a mensagem.");
                    return self.fail_with(e);
                }
                let items = ["--ignore-working-copy", "config", "get", "user.email"];
                let a = texts(&items);
                assert(items@.map_values(|x: &str| x@) =~= config_args("user.email"@));
                self.stage = FinishStage::Email;
                FinishAction::Jj { args: a, isolated: false }
            },
            FinishStage::Email => {
                if is_blank(&chars_of(out.as_str())) {
                    let mut e = String::from_str("identidade do Jujutsu incompleta (");
                    e.append("user.email");
                    e.append("). Configure nome e e-mail com jj config set --repo user.name NOME e jj config set --repo user.email EMAIL antes de gerar a mensagem.");
                    return self.fail_with(e);
                }
                self.stage = FinishStage::Unchanged;
                FinishAction::Snapshot { workspace: None }
            },
            FinishStage::Added => {
                self.file = 0;
                self.stage = FinishStage::FileRead;
                FinishAction::File { tree: self.tree.clone(), path: file_path(0) }
            },
            FinishStage::Forgotten => {
                self.stage = FinishStage::Expected;
                FinishAction::Snapshot { workspace: None }
            },
            FinishStage::Squashed => {
                let op = trimmed(&out);
                let items = ["--at-operation", op.as_str(), "--no-integrate-operation", "commit", "--message", self.message.as_str()];
                let a = texts(&items);
                assert(items@.map_values(|x: &str| x@)
                    =~= seq!["--at-operation"@, trim(out@), "--no-integrate-operation"@, "commit"@, "--message"@, self.message@]);
                self.stage = FinishStage::Committed;
                FinishAction::Jj { args: a, isolated: true }
            },
            FinishStage::Committed => {
                let op = trimmed(&out);
                let shown = op.clone();
                self.finished = Some(op);
                self.stage = FinishStage::Shown;
                FinishAction::Show { target: String::from_str("@-"), operation: shown }
            },
            FinishStage::Integrated => {
                let items = ["workspace", "update-stale"];
                let a = texts(&items);
                assert(items@.map_values(|x: &str| x@) =~= seq!["workspace"@, "update-stale"@]);
                self.stage = FinishStage::Updated;
                FinishAction::Jj { args: a, isolated: false }
            },
            FinishStage::Updated => {
                let items = ["status"];
                let a = texts(&items);
                assert(items@.map_values(|x: &str| x@) =~= seq!["status"@]);
                self.stage = FinishStage::Status;
                FinishAction::Jj { args: a, isolated: false }
            },
            FinishStage::Status => {
                self.stage = FinishStage::Done;
                FinishAction::Finish(Ok(()))
            },
            _ => {
                proof {
                    assert(false);
                }
                FinishAction::Finish(Err(String::new()))
            },
        }
    }

    fn on_snapped(&mut self, r: Result<Snapshot, String>, cancelled: bool) -> (a: FinishAction)
        requires
            well_formed(old(self)@),
            answers(old(self).stage, FinishEventView::Snapped(match r {
                Ok(s) => Ok(s@),
                Err(e) => Err(e@),
            })),
        ensures
            (final(self)@, a@) == finish_next(old(self)@, FinishEventView::Snapped(match r {
                Ok(s) => Ok(s@),
                Err(e) => Err(e@),
            }), cancelled),
            well_formed(final(self)@),
    {
        match self.stage {
            FinishStage::Unchanged => match r {
                Err(x) => self.fail_with(x),
                Ok(c) => {
                    if !c.same(&self.snapshot) {
                        return self.fail_with(String::from_str(
                            "a mudança ou o estado do Jujutsu mudou durante a revisão. Revise e execute novamente.",
                        ));
                    }
                    self.stage = FinishStage::Temp;
                    FinishAction::TempDir
                },
            },
            FinishStage::Isolated => match r {
                Err(x) => {
                    let a = self.forget_action();
                    let mut e = String::from_str("workspace temporário: ");
                    e.append(x.as_str());
                    self.problem = Some(e);
                    self.stage = FinishStage::Forgotten;
                    a
                },
                Ok(t) => {
                    let a = self.forget_action();
                    self.staged = Some(t);
                    self.stage = FinishStage::Forgotten;
                    a
                },
            },
            FinishStage::Expected => match r {
                Err(x) => {
                    let mut e = String::from_str("workspace original antes da integração: ");
                    e.append(x.as_str());
                    self.fail_with(e)
                },
                Ok(x) => {
                    if !x.revision.same(&self.snapshot.revision) {
                        return self.fail_with(String::from_str(
                            "a mudança mudou durante a preparação isolada. Revise e execute novamente.",
                        ));
                    }
                    let from = match &self.staged {
                        Some(t) => t.revision.id.clone(),
                        None => String::new(),
                    };
                    let items = [
                        "--at-operation",
                        x.operation.as_str(),
                        "--no-integrate-operation",
                        "squash",
                        "--from",
                        from.as_str(),
                        "--into",
                        self.snapshot.revision.id.as_str(),
                        "--message",
                        self.message.as_str(),
                    ];
                    let a = texts(&items);
                    assert(items@.map_values(|v: &str| v@) =~= seq![
                        "--at-operation"@,
                        x@.0,
                        "--no-integrate-operation"@,
                        "squash"@,
                        "--from"@,
                        self@.staged.unwrap().1.id,
                        "--into"@,
                        self@.snapshot.1.id,
                        "--message"@,
                        self@.message,
                    ]);
                    self.expected = Some(x);
                    self.stage = FinishStage::Squashed;
                    FinishAction::Jj { args: a, isolated: true }
                },
            },
            FinishStage::Settled => match r {
                Err(x) => self.fail_with(x),
                Ok(c) => {
                    let (same, op) = match &self.expected {
                        Some(x) => (c.same(x), x.operation.clone()),
                        None => (false, String::new()),
                    };
                    if !same {
                        return self.fail_with(String::from_str(
                            "a mudança ou o estado do Jujutsu mudou durante a revisão. Revise e execute novamente.",
                        ));
                    }
                    if cancelled {
                        return self.fail_with(String::from_str("operação cancelada."));
                    }
                    let fin = match &self.finished {
                        Some(f) => f.clone(),
                        None => String::new(),
                    };
                    let items = ["--at-operation", op.as_str(), "op", "integrate", fin.as_str()];
                    let a = texts(&items);
                    assert(items@.map_values(|v: &str| v@) =~= seq![
                        "--at-operation"@,
                        self@.expected.unwrap().0,
                        "op"@,
                        "integrate"@,
                        self@.finished.unwrap(),
                    ]);
                    self.stage = FinishStage::Integrated;
                    FinishAction::Jj { args: a, isolated: false }
                },
            },
            _ => {
                proof {
                    assert(false);
                }
                FinishAction::Finish(Err(String::new()))
            },
        }
    }
}

} // verus!
