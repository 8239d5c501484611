//! Sending a finished change straight to `main`: the decisions between the commands, as a
//! machine that the caller drives. Each step takes the answer to the last request and
//! gives the next request, or the end.
use vstd::prelude::*;
use vstd::string::*;
use crate::check_commit::lines_of;
use crate::git::{line_bytes, prints_line};
use crate::jj::{
    Jujutsu, Revision, RevisionView, author_error, committer_error, conflict_verdict,
};
use crate::message::{text_result, validation};
use crate::process::{decode_lossy, utf8_lossy};
use crate::text::{chars_of, same_chars};
use crate::jj::{conflicts, publishable};

verus! {

/// What the machine asks for next.
#[derive(Debug)]
pub enum SubmitAction {
    /// Run `jj` with these arguments and answer with `Ran`.
    Jj(Vec<String>),
    /// Report a change with `jj log -T 'json(self)'` (the reference given to submit when
    /// `target` is `None`), at `operation` when given, and answer with `Reported`.
    Show { target: Option<String>, operation: Option<String> },
    /// Run `git` with these arguments and answer with `Read`.
    Git(Vec<String>),
    /// Check the messages of the range `from..to` and answer with `Ranged`.
    CheckRange { from: String, to: String },
    /// Run the project's checks on a copy of this commit and answer with `Checked`.
    RunChecks(String),
    /// The end: the line to print, or the error.
    Finish(Result<String, String>),
}

/// The answer to the last request.
#[derive(Debug)]
pub enum SubmitEvent {
    Ran(Result<String, String>),
    Read(Result<Vec<u8>, String>),
    Reported(Result<Revision, String>),
    Ranged(Result<bool, String>),
    Checked(Result<(), String>),
}

pub enum SubmitActionView {
    Jj(Seq<Seq<char>>),
    Show(Option<Seq<char>>, Option<Seq<char>>),
    Git(Seq<Seq<char>>),
    CheckRange(Seq<char>, Seq<char>),
    RunChecks(Seq<char>),
    Finish(Result<Seq<char>, Seq<char>>),
}

pub enum SubmitEventView {
    Ran(Result<Seq<char>, Seq<char>>),
    Read(Result<Seq<u8>, Seq<char>>),
    Reported(Result<RevisionView, Seq<char>>),
    Ranged(Result<bool, Seq<char>>),
    Checked(Result<(), Seq<char>>),
}

pub open spec fn strings_of(v: Vec<String>) -> Seq<Seq<char>> {
    v@.map_values(|s: String| s@)
}

pub open spec fn opt_view(o: Option<String>) -> Option<Seq<char>> {
    match o {
        Some(s) => Some(s@),
        None => None,
    }
}

impl View for SubmitAction {
    type V = SubmitActionView;

    open spec fn view(&self) -> SubmitActionView {
        match self {
            SubmitAction::Jj(a) => SubmitActionView::Jj(strings_of(*a)),
            SubmitAction::Show { target, operation } => SubmitActionView::Show(opt_view(*target), opt_view(*operation)),
            SubmitAction::Git(a) => SubmitActionView::Git(strings_of(*a)),
            SubmitAction::CheckRange { from, to } => SubmitActionView::CheckRange(from@, to@),
            SubmitAction::RunChecks(c) => SubmitActionView::RunChecks(c@),
            SubmitAction::Finish(r) => SubmitActionView::Finish(text_result(*r)),
        }
    }
}

impl View for SubmitEvent {
    type V = SubmitEventView;

    open spec fn view(&self) -> SubmitEventView {
        match self {
            SubmitEvent::Ran(r) => SubmitEventView::Ran(text_result(*r)),
            SubmitEvent::Read(r) => SubmitEventView::Read(crate::git::bytes_result(*r)),
            SubmitEvent::Reported(r) => SubmitEventView::Reported(match r {
                Ok(v) => Ok(v@),
                Err(e) => Err(e@),
            }),
            SubmitEvent::Ranged(r) => SubmitEventView::Ranged(match r {
                Ok(b) => Ok(*b),
                Err(e) => Err(e@),
            }),
            SubmitEvent::Checked(r) => SubmitEventView::Checked(match r {
                Ok(()) => Ok(()),
                Err(e) => Err(e@),
            }),
        }
    }
}

/// The stages of a submission, each waiting for the answer to one request.
#[derive(Debug)]
pub enum SubmitStage {
    Status,
    Selected,
    Fetched,
    Following,
    Main,
    MergeBase,
    WorkingCopy,
    Object,
    Ancestry,
    Range,
    Files,
    Checks,
    Refetched,
    MainAgain,
    Current,
    Bookmark,
    Operation,
    Pinned,
    PinnedRemote,
    Pushed,
    Done,
}

/// A submission in progress: its stage, and what it learned so far.
#[derive(Debug)]
pub struct Submit {
    pub stage: SubmitStage,
    pub revision: Option<Revision>,
    pub main: Option<Revision>,
    pub operation: Option<String>,
}

pub struct SubmitView {
    pub stage: SubmitStage,
    pub revision: Option<RevisionView>,
    pub main: Option<RevisionView>,
    pub operation: Option<Seq<char>>,
}

pub open spec fn rev_view(r: Option<Revision>) -> Option<RevisionView> {
    match r {
        Some(x) => Some(x@),
        None => None,
    }
}

impl View for Submit {
    type V = SubmitView;

    open spec fn view(&self) -> SubmitView {
        SubmitView { stage: self.stage, revision: rev_view(self.revision), main: rev_view(self.main), operation: opt_view(self.operation) }
    }
}

pub open spec fn fetch_args() -> Seq<Seq<char>> {
    seq!["git"@, "fetch"@, "--remote"@, "origin"@]
}

pub open spec fn op_log_args() -> Seq<Seq<char>> {
    seq!["--ignore-working-copy"@, "op"@, "log"@, "--limit"@, "1"@, "--no-graph"@, "-T"@, "id"@]
}

pub open spec fn push_args(operation: Seq<char>) -> Seq<Seq<char>> {
    seq!["--at-operation"@, operation, "git"@, "push"@, "--remote"@, "origin"@, "--bookmark"@, "main"@]
}

pub open spec fn integrated_line(id: Seq<char>) -> Seq<char> {
    "Mudança já integrada na main: "@ + id + "."@
}

pub open spec fn working_copy_error() -> Seq<char> {
    "conclua @ com jj commit antes de enviar a mudança."@
}

pub open spec fn first_layer_hint(ancestry: Seq<u8>) -> Seq<char> {
    let lines = lines_of(utf8_lossy(ancestry));
    if lines.len() > 0 {
        " Envie a primeira camada com submit --revision "@ + lines[0] + "."@
    } else {
        Seq::empty()
    }
}

pub open spec fn not_child_error(ancestry: Seq<u8>) -> Seq<char> {
    "a mudança precisa ser filha direta de main@origin. Atualize a base com jj rebase."@ + first_layer_hint(ancestry)
}

pub open spec fn no_files_error() -> Seq<char> {
    "não há alterações de arquivos para enviar."@
}

pub open spec fn main_moved_error() -> Seq<char> {
    "a main avançou durante os checks. Atualize a base, revise e reenvie."@
}

pub open spec fn rewritten_error() -> Seq<char> {
    "a mudança foi reescrita durante o envio. Revise e reenvie."@
}

pub open spec fn cancelled_error() -> Seq<char> {
    "operação cancelada."@
}

pub open spec fn refs_changed_error() -> Seq<char> {
    "o envio foi cancelado ou as referências mudaram. Revise e reenvie."@
}

pub open spec fn published_line(id: Seq<char>) -> Seq<char> {
    "Publicado "@ + id + " diretamente na main. Checks locais aprovados. Acompanhe o CI no GitHub."@
}

/// Whether `event` answers the request of stage `stage`.
pub open spec fn answers(stage: SubmitStage, event: SubmitEventView) -> bool {
    match stage {
        SubmitStage::Status | SubmitStage::Fetched | SubmitStage::Following | SubmitStage::Refetched
        | SubmitStage::Bookmark | SubmitStage::Operation | SubmitStage::Pushed => event is Ran,
        SubmitStage::Selected | SubmitStage::Main | SubmitStage::WorkingCopy | SubmitStage::MainAgain
        | SubmitStage::Current | SubmitStage::Pinned | SubmitStage::PinnedRemote => event is Reported,
        SubmitStage::MergeBase | SubmitStage::Object | SubmitStage::Ancestry | SubmitStage::Files => event is Read,
        SubmitStage::Range => event is Ranged,
        SubmitStage::Checks => event is Checked,
        SubmitStage::Done => false,
    }
}

/// Whether a state holds what its stage needs: the selected change from `Fetched` on,
/// `main@origin` from `MergeBase` on, the pinned operation from `Pinned` on.
pub open spec fn well_formed(s: SubmitView) -> bool {
    &&& (!(s.stage is Status || s.stage is Selected || s.stage is Done) ==> s.revision is Some)
    &&& (!(s.stage is Status || s.stage is Selected || s.stage is Fetched || s.stage is Following || s.stage is Main
        || s.stage is Done || s.stage is Pushed) ==> s.main is Some)
    &&& (s.stage is Pinned || s.stage is PinnedRemote || s.stage is Pushed ==> s.operation is Some)
}

pub open spec fn at(s: SubmitView, stage: SubmitStage) -> SubmitView {
    SubmitView { stage, ..s }
}

pub open spec fn finish(s: SubmitView, r: Result<Seq<char>, Seq<char>>) -> (SubmitView, SubmitActionView) {
    (at(s, SubmitStage::Done), SubmitActionView::Finish(r))
}

/// One step of a submission: from the state and the answer to its request (and whether
/// the user cancelled), the next state and request. Any error ends the submission with
/// it; otherwise the change is selected, `main@origin` fetched, an integrated change
/// reported, and the change sent only when it is finished, free of conflicts, fully
/// identified, a direct child of `main@origin`, with valid messages, with changed files and
/// passing checks; then `main` is set at one operation that must still show the change and
/// the fetched `main@origin`, and that operation is pushed.
pub open spec fn submit_next(s: SubmitView, e: SubmitEventView, cancelled: bool) -> (SubmitView, SubmitActionView) {
    let rev = s.revision.unwrap();
    let main = s.main.unwrap();
    match (s.stage, e) {
        (SubmitStage::Status, SubmitEventView::Ran(Err(x))) => finish(s, Err(x)),
        (SubmitStage::Status, SubmitEventView::Ran(Ok(_))) => (at(s, SubmitStage::Selected), SubmitActionView::Show(None, None)),
        (SubmitStage::Selected, SubmitEventView::Reported(Err(x))) => finish(s, Err(x)),
        (SubmitStage::Selected, SubmitEventView::Reported(Ok(r))) => (
            SubmitView { stage: SubmitStage::Fetched, revision: Some(r), ..s },
            SubmitActionView::Jj(fetch_args()),
        ),
        (SubmitStage::Fetched, SubmitEventView::Ran(Err(x))) => finish(s, Err(x)),
        (SubmitStage::Fetched, SubmitEventView::Ran(Ok(_))) => (
            at(s, SubmitStage::Following),
            SubmitActionView::Jj(seq!["bookmark"@, "track"@, "main@origin"@]),
        ),
        (SubmitStage::Following, SubmitEventView::Ran(Err(x))) => finish(s, Err(x)),
        (SubmitStage::Following, SubmitEventView::Ran(Ok(_))) => (
            at(s, SubmitStage::Main),
            SubmitActionView::Show(Some("main@origin"@), None),
        ),
        (SubmitStage::Main, SubmitEventView::Reported(Err(x))) => finish(s, Err(x)),
        (SubmitStage::Main, SubmitEventView::Reported(Ok(m))) => (
            SubmitView { stage: SubmitStage::MergeBase, main: Some(m), ..s },
            SubmitActionView::Git(seq!["merge-base"@, rev.id, m.id]),
        ),
        (SubmitStage::MergeBase, SubmitEventView::Read(Err(x))) => finish(s, Err(x)),
        (SubmitStage::MergeBase, SubmitEventView::Read(Ok(b))) => if b == line_bytes(rev.id) {
            finish(s, Ok(integrated_line(rev.id)))
        } else {
            (at(s, SubmitStage::WorkingCopy), SubmitActionView::Show(Some("@"@), None))
        },
        (SubmitStage::WorkingCopy, SubmitEventView::Reported(Err(x))) => finish(s, Err(x)),
        (SubmitStage::WorkingCopy, SubmitEventView::Reported(Ok(w))) => if w.change == rev.change {
            finish(s, Err(working_copy_error()))
        } else {
            (at(s, SubmitStage::Object), SubmitActionView::Git(seq!["cat-file"@, "commit"@, rev.id]))
        },
        (SubmitStage::Object, SubmitEventView::Read(Err(x))) => finish(s, Err(x)),
        (SubmitStage::Object, SubmitEventView::Read(Ok(b))) => match conflict_verdict(utf8_lossy(b)) {
            Some(x) => finish(s, Err(x)),
            None => if !rev.author_complete {
                finish(s, Err(author_error(rev.change)))
            } else if !rev.committer_complete {
                finish(s, Err(committer_error(rev.change)))
            } else if rev.parents != seq![main.id] {
                (
                    at(s, SubmitStage::Ancestry),
                    SubmitActionView::Git(seq!["rev-list"@, "--reverse"@, "--ancestry-path"@, main.id + ".."@ + rev.id]),
                )
            } else {
                match validation(rev.description) {
                    Err(x) => finish(s, Err(x)),
                    Ok(_) => (at(s, SubmitStage::Range), SubmitActionView::CheckRange(main.id, rev.id)),
                }
            },
        },
        (SubmitStage::Ancestry, SubmitEventView::Read(Err(x))) => finish(s, Err(x)),
        (SubmitStage::Ancestry, SubmitEventView::Read(Ok(b))) => finish(s, Err(not_child_error(b))),
        (SubmitStage::Range, SubmitEventView::Ranged(Err(x))) => finish(s, Err(x)),
        (SubmitStage::Range, SubmitEventView::Ranged(Ok(_))) => (
            at(s, SubmitStage::Files),
            SubmitActionView::Git(seq!["diff"@, "--name-only"@, main.id, rev.id, "--"@]),
        ),
        (SubmitStage::Files, SubmitEventView::Read(Err(x))) => finish(s, Err(x)),
        (SubmitStage::Files, SubmitEventView::Read(Ok(b))) => if b.len() == 0 {
            finish(s, Err(no_files_error()))
        } else {
            (at(s, SubmitStage::Checks), SubmitActionView::RunChecks(rev.id))
        },
        (SubmitStage::Checks, SubmitEventView::Checked(Err(x))) => finish(s, Err(x)),
        (SubmitStage::Checks, SubmitEventView::Checked(Ok(()))) => (at(s, SubmitStage::Refetched), SubmitActionView::Jj(fetch_args())),
        (SubmitStage::Refetched, SubmitEventView::Ran(Err(x))) => finish(s, Err(x)),
        (SubmitStage::Refetched, SubmitEventView::Ran(Ok(_))) => (
            at(s, SubmitStage::MainAgain),
            SubmitActionView::Show(Some("main@origin"@), None),
        ),
        (SubmitStage::MainAgain, SubmitEventView::Reported(Err(x))) => finish(s, Err(x)),
        (SubmitStage::MainAgain, SubmitEventView::Reported(Ok(m))) => if m.id != main.id {
            finish(s, Err(main_moved_error()))
        } else {
            (at(s, SubmitStage::Current), SubmitActionView::Show(Some(rev.change), None))
        },
        (SubmitStage::Current, SubmitEventView::Reported(Err(x))) => finish(s, Err(x)),
        (SubmitStage::Current, SubmitEventView::Reported(Ok(c))) => if c != rev {
            finish(s, Err(rewritten_error()))
        } else if cancelled {
            finish(s, Err(cancelled_error()))
        } else {
            (
                at(s, SubmitStage::Bookmark),
                SubmitActionView::Jj(seq!["bookmark"@, "set"@, "main"@, "--revision"@, rev.id]),
            )
        },
        (SubmitStage::Bookmark, SubmitEventView::Ran(Err(x))) => finish(s, Err(x)),
        (SubmitStage::Bookmark, SubmitEventView::Ran(Ok(_))) => (at(s, SubmitStage::Operation), SubmitActionView::Jj(op_log_args())),
        (SubmitStage::Operation, SubmitEventView::Ran(Err(x))) => finish(s, Err(x)),
        (SubmitStage::Operation, SubmitEventView::Ran(Ok(op))) => (
            SubmitView { stage: SubmitStage::Pinned, operation: Some(op), ..s },
            SubmitActionView::Show(Some("main"@), Some(op)),
        ),
        (SubmitStage::Pinned, SubmitEventView::Reported(Err(x))) => finish(s, Err(x)),
        (SubmitStage::Pinned, SubmitEventView::Reported(Ok(b))) => if b != rev {
            finish(s, Err(refs_changed_error()))
        } else {
            (at(s, SubmitStage::PinnedRemote), SubmitActionView::Show(Some("main@origin"@), s.operation))
        },
        (SubmitStage::PinnedRemote, SubmitEventView::Reported(Err(x))) => finish(s, Err(x)),
        (SubmitStage::PinnedRemote, SubmitEventView::Reported(Ok(r))) => if r.id != main.id || cancelled {
            finish(s, Err(refs_changed_error()))
        } else {
            (at(s, SubmitStage::Pushed), SubmitActionView::Jj(push_args(s.operation.unwrap())))
        },
        (SubmitStage::Pushed, SubmitEventView::Ran(Err(x))) => finish(s, Err(x)),
        (SubmitStage::Pushed, SubmitEventView::Ran(Ok(_))) => finish(s, Ok(published_line(rev.id))),
        _ => (s, SubmitActionView::Finish(Err(Seq::empty()))),
    }
}


/// Whether an answer reports a failure.
pub open spec fn failed(e: SubmitEventView) -> bool {
    match e {
        SubmitEventView::Ran(r) => r is Err,
        SubmitEventView::Read(r) => r is Err,
        SubmitEventView::Reported(r) => r is Err,
        SubmitEventView::Ranged(r) => r is Err,
        SubmitEventView::Checked(r) => r is Err,
    }
}

/// A submission pushes nothing after a failure and nothing for an integrated change: a
/// failed answer ends it with that failure, and it then waits for nothing more; a change
/// already in `main@origin` ends it with the report that it is integrated; `main` is moved
/// and pushed only after the checks passed, with no cancellation, and the push is of the
/// operation that still shows the change and the fetched `main@origin`.
pub proof fn lemma_submission_pushes_only_when_safe(s: SubmitView, e: SubmitEventView, cancelled: bool)
    requires
        answers(s.stage, e),
    ensures
        failed(e) ==> submit_next(s, e, cancelled).0.stage is Done && submit_next(s, e, cancelled).1 matches
            SubmitActionView::Finish(Err(_)),
        !answers(submit_next(s, e, cancelled).0.stage, e) || !(submit_next(s, e, cancelled).0.stage is Done),
        s.stage is MergeBase && e == SubmitEventView::Read(Ok(line_bytes(s.revision.unwrap().id))) ==> submit_next(s, e, cancelled)
            == finish(s, Ok(integrated_line(s.revision.unwrap().id))),
        submit_next(s, e, cancelled).0.stage is Bookmark ==> s.stage is Current && !cancelled,
        submit_next(s, e, cancelled).0.stage is Current ==> s.stage is MainAgain,
        submit_next(s, e, cancelled).0.stage is Refetched ==> s.stage is Checks && e is Checked && !failed(e),
        submit_next(s, e, cancelled).0.stage is Pushed ==> s.stage is PinnedRemote && !cancelled && (e matches
            SubmitEventView::Reported(Ok(r)) && r.id == s.main.unwrap().id) && submit_next(s, e, cancelled).1
            == SubmitActionView::Jj(push_args(s.operation.unwrap())),
{
}

fn push_text(v: &mut Vec<String>, s: &str)
    ensures
        strings_of(*final(v)) == strings_of(*old(v)).push(s@),
{
    let ghost before = strings_of(*v);
    v.push(String::from_str(s));
    assert(strings_of(*v) =~= before.push(s@));
}

fn texts1(a: &str) -> (r: Vec<String>)
    ensures
        strings_of(r) == seq![a@],
{
    let mut v: Vec<String> = Vec::new();
    assert(strings_of(v) =~= Seq::<Seq<char>>::empty());
    push_text(&mut v, a);
    v
}

fn texts3(a: &str, b: &str, c: &str) -> (r: Vec<String>)
    ensures
        strings_of(r) == seq![a@, b@, c@],
{
    let mut v = texts1(a);
    push_text(&mut v, b);
    push_text(&mut v, c);
    v
}

fn texts4(a: &str, b: &str, c: &str, d: &str) -> (r: Vec<String>)
    ensures
        strings_of(r) == seq![a@, b@, c@, d@],
{
    let mut v = texts3(a, b, c);
    push_text(&mut v, d);
    v
}

fn texts5(a: &str, b: &str, c: &str, d: &str, e: &str) -> (r: Vec<String>)
    ensures
        strings_of(r) == seq![a@, b@, c@, d@, e@],
{
    let mut v = texts4(a, b, c, d);
    push_text(&mut v, e);
    v
}

fn texts8(a: &str, b: &str, c: &str, d: &str, e: &str, f: &str, g: &str, h: &str) -> (r: Vec<String>)
    ensures
        strings_of(r) == seq![a@, b@, c@, d@, e@, f@, g@, h@],
{
    let mut v = texts5(a, b, c, d, e);
    push_text(&mut v, f);
    push_text(&mut v, g);
    push_text(&mut v, h);
    v
}

fn text(s: &str) -> (r: String)
    ensures
        r@ == s@,
{
    String::from_str(s)
}

fn same_text(a: &String, b: &String) -> (r: bool)
    ensures
        r == (a@ == b@),
{
    same_chars(&chars_of(a.as_str()), &chars_of(b.as_str()))
}

fn first_layer_hint_text(ancestry: &[u8]) -> (r: String)
    ensures
        r@ == first_layer_hint(ancestry@),
{
    let lossy = decode_lossy(ancestry);
    let lines = crate::check_commit::lines_chars(&chars_of(lossy.as_str()));
    if lines.len() > 0 {
        let mut h = String::from_str(" Envie a primeira camada com submit --revision ");
        h.append(lines[0].as_str());
        h.append(".");
        assert(lines@.map_values(|l: String| l@)[0] == lines@[0]@);
        h
    } else {
        assert(lines@.map_values(|l: String| l@).len() == 0);
        String::new()
    }
}

impl Submit {
    /// A new submission and its first request: `jj status`, which snapshots the workspace.
    pub fn start() -> (r: (Submit, SubmitAction))
        ensures
            r.0@ == (SubmitView { stage: SubmitStage::Status, revision: None, main: None, operation: None }),
            r.1@ == SubmitActionView::Jj(seq!["status"@]),
            well_formed(r.0@),
    {
        let a = texts1("status");
        (Submit { stage: SubmitStage::Status, revision: None, main: None, operation: None }, SubmitAction::Jj(a))
    }

    /// Whether `event` answers the request that the submission waits for.
    pub fn accepts(&self, event: &SubmitEvent) -> (r: bool)
        ensures
            r == answers(self.stage, event@),
    {
        match self.stage {
            SubmitStage::Status | SubmitStage::Fetched | SubmitStage::Following | SubmitStage::Refetched
            | SubmitStage::Bookmark | SubmitStage::Operation | SubmitStage::Pushed => matches!(event, SubmitEvent::Ran(_)),
            SubmitStage::Selected | SubmitStage::Main | SubmitStage::WorkingCopy | SubmitStage::MainAgain
            | SubmitStage::Current | SubmitStage::Pinned | SubmitStage::PinnedRemote => matches!(event, SubmitEvent::Reported(_)),
            SubmitStage::MergeBase | SubmitStage::Object | SubmitStage::Ancestry | SubmitStage::Files => matches!(event, SubmitEvent::Read(_)),
            SubmitStage::Range => matches!(event, SubmitEvent::Ranged(_)),
            SubmitStage::Checks => matches!(event, SubmitEvent::Checked(_)),
            SubmitStage::Done => false,
        }
    }

    fn finish_with(&mut self, r: Result<String, String>) -> (a: SubmitAction)
        ensures
            final(self)@ == at(old(self)@, SubmitStage::Done),
            a@ == SubmitActionView::Finish(text_result(r)),
    {
        self.stage = SubmitStage::Done;
        SubmitAction::Finish(r)
    }

    /// Takes the answer to the last request (and whether the user cancelled) and gives the
    /// next request (see `submit_next`).
    pub fn advance(&mut self, event: SubmitEvent, cancelled: bool) -> (a: SubmitAction)
        requires
            well_formed(old(self)@),
            answers(old(self).stage, event@),
        ensures
            (final(self)@, a@) == submit_next(old(self)@, event@, cancelled),
            well_formed(final(self)@),
    {
        match event {
            SubmitEvent::Ran(r) => self.on_ran(r, cancelled),
            SubmitEvent::Reported(r) => self.on_reported(r, cancelled),
            SubmitEvent::Read(r) => self.on_read(r, cancelled),
            SubmitEvent::Ranged(r) => {
                let ghost s = self@;
                match r {
                    Err(x) => self.finish_with(Err(x)),
                    Ok(_) => {
                        let a = match (&self.revision, &self.main) {
                            (Some(rev), Some(main)) => texts5("diff", "--name-only", main.id.as_str(), rev.id.as_str(), "--"),
                            _ => {
                                proof {
                                    assert(false);
                                }
                                Vec::new()
                            },
                        };
                        self.stage = SubmitStage::Files;
                        SubmitAction::Git(a)
                    },
                }
            },
            SubmitEvent::Checked(r) => match r {
                Err(x) => self.finish_with(Err(x)),
                Ok(()) => {
                    self.stage = SubmitStage::Refetched;
                    SubmitAction::Jj(texts4("git", "fetch", "--remote", "origin"))
                },
            },
        }
    }

    fn on_ran(&mut self, r: Result<String, String>, cancelled: bool) -> (a: SubmitAction)
        requires
            well_formed(old(self)@),
            answers(old(self).stage, SubmitEventView::Ran(text_result(r))),
        ensures
            (final(self)@, a@) == submit_next(old(self)@, SubmitEventView::Ran(text_result(r)), cancelled),
            well_formed(final(self)@),
    {
        let out = match r {
            Err(x) => return self.finish_with(Err(x)),
            Ok(out) => out,
        };
        match self.stage {
            SubmitStage::Status => {
                self.stage = SubmitStage::Selected;
                SubmitAction::Show { target: None, operation: None }
            },
            SubmitStage::Fetched => {
                self.stage = SubmitStage::Following;
                SubmitAction::Jj(texts3("bookmark", "track", "main@origin"))
            },
            SubmitStage::Following => {
                self.stage = SubmitStage::Main;
                SubmitAction::Show { target: Some(text("main@origin")), operation: None }
            },
            SubmitStage::Refetched => {
                self.stage = SubmitStage::MainAgain;
                SubmitAction::Show { target: Some(text("main@origin")), operation: None }
            },
            SubmitStage::Bookmark => {
                self.stage = SubmitStage::Operation;
                SubmitAction::Jj(texts8("--ignore-working-copy", "op", "log", "--limit", "1", "--no-graph", "-T", "id"))
            },
            SubmitStage::Operation => {
                let op = out.clone();
                self.operation = Some(out);
                self.stage = SubmitStage::Pinned;
                SubmitAction::Show { target: Some(text("main")), operation: Some(op) }
            },
            SubmitStage::Pushed => {
                let line = match &self.revision {
                    Some(rev) => {
                        let mut l = String::from_str("Publicado ");
                        l.append(rev.id.as_str());
                        l.append(" diretamente na main. Checks locais aprovados. Acompanhe o CI no GitHub.");
                        l
                    },
                    None => {
                        proof {
                            assert(false);
                        }
                        String::new()
                    },
                };
                self.finish_with(Ok(line))
            },
            _ => {
                proof {
                    assert(false);
                }
                SubmitAction::Finish(Err(String::new()))
            },
        }
    }
}

impl Submit {
    fn on_reported(&mut self, r: Result<Revision, String>, cancelled: bool) -> (a: SubmitAction)
        requires
            well_formed(old(self)@),
            answers(old(self).stage, SubmitEventView::Reported(match r {
                Ok(v) => Ok(v@),
                Err(e) => Err(e@),
            })),
        ensures
            (final(self)@, a@) == submit_next(old(self)@, SubmitEventView::Reported(match r {
                Ok(v) => Ok(v@),
                Err(e) => Err(e@),
            }), cancelled),
            well_formed(final(self)@),
    {
        let got = match r {
            Err(x) => return self.finish_with(Err(x)),
            Ok(got) => got,
        };
        match self.stage {
            SubmitStage::Selected => {
                self.revision = Some(got);
                self.stage = SubmitStage::Fetched;
                SubmitAction::Jj(texts4("git", "fetch", "--remote", "origin"))
            },
            SubmitStage::Main => {
                let a = match &self.revision {
                    Some(rev) => texts3("merge-base", rev.id.as_str(), got.id.as_str()),
                    None => {
                        proof {
                            assert(false);
                        }
                        Vec::new()
                    },
                };
                self.main = Some(got);
                self.stage = SubmitStage::MergeBase;
                SubmitAction::Git(a)
            },
            SubmitStage::WorkingCopy => {
                let (same, a) = match &self.revision {
                    Some(rev) => (same_text(&got.change, &rev.change), texts3("cat-file", "commit", rev.id.as_str())),
                    None => {
                        proof {
                            assert(false);
                        }
                        (false, Vec::new())
                    },
                };
                if same {
                    return self.finish_with(Err(String::from_str("conclua @ com jj commit antes de enviar a mudança.")));
                }
                self.stage = SubmitStage::Object;
                SubmitAction::Git(a)
            },
            SubmitStage::MainAgain => {
                let (moved, change) = match (&self.revision, &self.main) {
                    (Some(rev), Some(main)) => (!same_text(&got.id, &main.id), rev.change.clone()),
                    _ => {
                        proof {
                            assert(false);
                        }
                        (false, String::new())
                    },
                };
                if moved {
                    return self.finish_with(Err(String::from_str(
                        "a main avançou durante os checks. Atualize a base, revise e reenvie.",
                    )));
                }
                self.stage = SubmitStage::Current;
                SubmitAction::Show { target: Some(change), operation: None }
            },
            SubmitStage::Current => {
                let (same, a) = match &self.revision {
                    Some(rev) => (got.same(rev), texts5("bookmark", "set", "main", "--revision", rev.id.as_str())),
                    None => {
                        proof {
                            assert(false);
                        }
                        (false, Vec::new())
                    },
                };
                if !same {
                    return self.finish_with(Err(String::from_str("a mudança foi reescrita durante o envio. Revise e reenvie.")));
                }
                if cancelled {
                    return self.finish_with(Err(String::from_str("operação cancelada.")));
                }
                self.stage = SubmitStage::Bookmark;
                SubmitAction::Jj(a)
            },
            SubmitStage::Pinned => {
                let same = match &self.revision {
                    Some(rev) => got.same(rev),
                    None => {
                        proof {
                            assert(false);
                        }
                        false
                    },
                };
                if !same {
                    return self.finish_with(Err(String::from_str(
                        "o envio foi cancelado ou as referências mudaram. Revise e reenvie.",
                    )));
                }
                let op = match &self.operation {
                    Some(o) => Some(o.clone()),
                    None => None,
                };
                self.stage = SubmitStage::PinnedRemote;
                SubmitAction::Show { target: Some(text("main@origin")), operation: op }
            },
            SubmitStage::PinnedRemote => {
                let (moved, a) = match (&self.main, &self.operation) {
                    (Some(main), Some(op)) => (
                        !same_text(&got.id, &main.id),
                        texts8("--at-operation", op.as_str(), "git", "push", "--remote", "origin", "--bookmark", "main"),
                    ),
                    _ => {
                        proof {
                            assert(false);
                        }
                        (false, Vec::new())
                    },
                };
                if moved || cancelled {
                    return self.finish_with(Err(String::from_str(
                        "o envio foi cancelado ou as referências mudaram. Revise e reenvie.",
                    )));
                }
                self.stage = SubmitStage::Pushed;
                SubmitAction::Jj(a)
            },
            _ => {
                proof {
                    assert(false);
                }
                SubmitAction::Finish(Err(String::new()))
            },
        }
    }

    fn on_read(&mut self, r: Result<Vec<u8>, String>, cancelled: bool) -> (a: SubmitAction)
        requires
            well_formed(old(self)@),
            answers(old(self).stage, SubmitEventView::Read(crate::git::bytes_result(r))),
        ensures
            (final(self)@, a@) == submit_next(old(self)@, SubmitEventView::Read(crate::git::bytes_result(r)), cancelled),
            well_formed(final(self)@),
    {
        let bytes = match r {
            Err(x) => return self.finish_with(Err(x)),
            Ok(b) => b,
        };
        let (rev, main) = match (&self.revision, &self.main) {
            (Some(rev), Some(main)) => (rev.copy(), main.copy()),
            _ => {
                proof {
                    assert(false);
                }
                return SubmitAction::Finish(Err(String::new()));
            },
        };
        match self.stage {
            SubmitStage::MergeBase => {
                if prints_line(bytes.as_slice(), rev.id.as_str()) {
                    let mut l = String::from_str("Mudança já integrada na main: ");
                    l.append(rev.id.as_str());
                    l.append(".");
                    return self.finish_with(Ok(l));
                }
                self.stage = SubmitStage::WorkingCopy;
                SubmitAction::Show { target: Some(text("@")), operation: None }
            },
            SubmitStage::Object => {
                let lossy = decode_lossy(bytes.as_slice());
                match conflicts(lossy.as_str()) {
                    Err(x) => return self.finish_with(Err(x)),
                    Ok(()) => {},
                }
                match publishable(&rev) {
                    Err(x) => return self.finish_with(Err(x)),
                    Ok(()) => {},
                }
                let child = rev.parents.len() == 1 && same_text(&rev.parents[0], &main.id);
                assert(child == (rev@.parents == seq![main@.id])) by {
                    if rev.parents@.len() == 1 {
                        assert(rev@.parents[0] == rev.parents@[0]@);
                        if rev@.parents[0] == main@.id {
                            assert(rev@.parents =~= seq![main@.id]);
                        }
                    } else {
                        assert(rev@.parents.len() != 1);
                    }
                }
                if !child {
                    let mut range = main.id.clone();
                    range.append("..");
                    range.append(rev.id.as_str());
                    self.stage = SubmitStage::Ancestry;
                    return SubmitAction::Git(texts4("rev-list", "--reverse", "--ancestry-path", range.as_str()));
                }
                match crate::message::validate(rev.description.as_str()) {
                    Err(x) => return self.finish_with(Err(x)),
                    Ok(_) => {},
                }
                self.stage = SubmitStage::Range;
                SubmitAction::CheckRange { from: main.id, to: rev.id }
            },
            SubmitStage::Ancestry => {
                let mut e = String::from_str(
                    "a mudança precisa ser filha direta de main@origin. Atualize a base com jj rebase.",
                );
                e.append(first_layer_hint_text(bytes.as_slice()).as_str());
                self.finish_with(Err(e))
            },
            SubmitStage::Files => {
                if bytes.len() == 0 {
                    return self.finish_with(Err(String::from_str("não há alterações de arquivos para enviar.")));
                }
                self.stage = SubmitStage::Checks;
                SubmitAction::RunChecks(rev.id)
            },
            _ => {
                proof {
                    assert(false);
                }
                SubmitAction::Finish(Err(String::new()))
            },
        }
    }
}

} // verus!
