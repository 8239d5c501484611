//! The latest published release below a commit, which a new release is prepared against:
//! the decisions between the reads it takes (the `origin` remote, the pages of releases,
//! the objects of a tag, a commit and a merge base).
use vstd::prelude::*;
use vstd::string::*;
use crate::git::{bytes_result, line_bytes, prints_line, strings_view};
use crate::github::{
    candidate_view, candidates, github_repository, lookup_next, lookup_view, newest_first, opt_view, page_path,
    published_order, Candidate, Github, LookupStep, LookupStepView, ReleaseFields, TagLookup, TagObject,
};
use crate::message::text_result;
use crate::release_check::{args, copy_text};

verus! {

/// What the search asks for next.
#[derive(Debug)]
pub enum LatestAction {
    /// What Git prints for these arguments, as bytes.
    ReadBytes(Vec<String>),
    /// `GET` this path of the API of this repository.
    Get(String, String),
    /// The commit that this identifier resolves to in the local history.
    Resolve(String),
    /// The end: the tag and commit of the latest release below the commit, none, or why
    /// it cannot be told.
    Finish(Result<Option<(String, String)>, String>),
}

/// What came of an action.
#[derive(Debug)]
pub enum LatestEvent {
    Bytes(Result<Vec<u8>, String>),
    /// A page of releases: `Some(None)` when the answer is not a list.
    Page(Result<Option<Option<Vec<ReleaseFields>>>, String>),
    /// An object of a tag (`None` for 404).
    Tag(Result<Option<TagObject>, String>),
    Text(Result<String, String>),
}

pub enum LatestActionView {
    ReadBytes(Seq<Seq<char>>),
    Get(Seq<char>, Seq<char>),
    Resolve(Seq<char>),
    Finish(Result<Option<(Seq<char>, Seq<char>)>, Seq<char>>),
}

pub enum LatestEventView {
    Bytes(Result<Seq<u8>, Seq<char>>),
    Page(Result<Option<Option<Seq<ReleaseFields>>>, Seq<char>>),
    Tag(Result<Option<(Option<Seq<char>>, Option<Seq<char>>)>, Seq<char>>),
    Text(Result<Seq<char>, Seq<char>>),
}

impl View for LatestAction {
    type V = LatestActionView;

    open spec fn view(&self) -> LatestActionView {
        match self {
            LatestAction::ReadBytes(a) => LatestActionView::ReadBytes(strings_view(a@)),
            LatestAction::Get(r, p) => LatestActionView::Get(r@, p@),
            LatestAction::Resolve(s) => LatestActionView::Resolve(s@),
            LatestAction::Finish(r) => LatestActionView::Finish(match r {
                Ok(Some((t, c))) => Ok(Some((t@, c@))),
                Ok(None) => Ok(None),
                Err(e) => Err(e@),
            }),
        }
    }
}

impl View for LatestEvent {
    type V = LatestEventView;

    open spec fn view(&self) -> LatestEventView {
        match self {
            LatestEvent::Bytes(r) => LatestEventView::Bytes(bytes_result(*r)),
            LatestEvent::Page(r) => LatestEventView::Page(match r {
                Ok(Some(Some(v))) => Ok(Some(Some(v@))),
                Ok(Some(None)) => Ok(Some(None)),
                Ok(None) => Ok(None),
                Err(e) => Err(e@),
            }),
            LatestEvent::Tag(r) => LatestEventView::Tag(match r {
                Ok(Some(o)) => Ok(Some((opt_view(o.sha), opt_view(o.kind)))),
                Ok(None) => Ok(None),
                Err(e) => Err(e@),
            }),
            LatestEvent::Text(r) => LatestEventView::Text(text_result(*r)),
        }
    }
}

#[derive(Debug, Clone, Copy)]
pub enum LatestStage {
    Remote,
    Pages,
    Tag,
    Resolve,
    MergeBase,
    Done,
}

/// A search in progress.
#[derive(Debug)]
pub struct LatestPublished {
    pub stage: LatestStage,
    /// The commit whose ancestors are searched.
    pub revision: String,
    pub repository: String,
    /// The page of releases asked for, and the releases listed so far.
    pub page: u64,
    pub releases: Vec<ReleaseFields>,
    /// The published releases, newest first, and the one being tried.
    pub order: Vec<Candidate>,
    pub index: usize,
    /// The objects followed in the current tag lookup, and the commit it found.
    pub depth: u8,
    pub sha: String,
}

pub struct LatestView {
    pub stage: LatestStage,
    pub revision: Seq<char>,
    pub repository: Seq<char>,
    pub page: u64,
    pub releases: Seq<ReleaseFields>,
    pub order: Seq<((u64, u64, u64, Seq<char>, Seq<char>), Seq<char>)>,
    pub index: int,
    pub depth: u8,
    pub sha: Seq<char>,
}

impl View for LatestPublished {
    type V = LatestView;

    open spec fn view(&self) -> LatestView {
        LatestView {
            stage: self.stage,
            revision: self.revision@,
            repository: self.repository@,
            page: self.page,
            releases: self.releases@,
            order: self.order@.map_values(|c: Candidate| candidate_view(c)),
            index: self.index as int,
            depth: self.depth,
            sha: self.sha@,
        }
    }
}

pub open spec fn at(s: LatestView, stage: LatestStage) -> LatestView {
    LatestView { stage, ..s }
}

pub open spec fn stop(s: LatestView, e: Seq<char>) -> (LatestView, LatestActionView) {
    (at(s, LatestStage::Done), LatestActionView::Finish(Err(e)))
}

pub open spec fn list_error() -> Seq<char> {
    "não foi possível listar releases; confira a autenticação do gh."@
}

pub open spec fn invalid_list_error() -> Seq<char> {
    "lista de releases inválida."@
}

pub open spec fn paging_error() -> Seq<char> {
    "lista de releases excedeu o limite de paginação."@
}

pub open spec fn missing_tag_error() -> Seq<char> {
    "release publicada sem tag."@
}

pub open spec fn history_error() -> Seq<char> {
    "atualize o histórico com jj git fetch --remote origin antes de preparar a release."@
}

/// Whether `order` is the published releases of `releases`, newest first.
pub open spec fn ordered(order: Seq<((u64, u64, u64, Seq<char>, Seq<char>), Seq<char>)>, releases: Seq<ReleaseFields>) -> bool {
    order.to_multiset() == candidates(releases).to_multiset() && newest_first(order)
}

/// The release at `index` of the order is tried: the lookup of its tag; past the last
/// one, there is none.
pub open spec fn try_candidate(s: LatestView, index: int) -> (LatestView, LatestActionView) {
    if index >= s.order.len() {
        (LatestView { stage: LatestStage::Done, index, ..s }, LatestActionView::Finish(Ok(None)))
    } else {
        (
            LatestView { stage: LatestStage::Tag, index, depth: 0, ..s },
            LatestActionView::Get(s.repository, "git/ref/tags/"@ + s.order[index].1),
        )
    }
}

/// One step of the search for the latest published release below the commit: the
/// repository that `origin` names, every page of its releases (at most 1000, of 100), then
/// the published releases from the newest: the first whose tag names a commit that the
/// local history holds and that is an ancestor of the commit. `order` is the order that
/// the listing was sorted in (see `ordered`).
pub open spec fn latest_next(
    s: LatestView,
    e: LatestEventView,
    order: Seq<((u64, u64, u64, Seq<char>, Seq<char>), Seq<char>)>,
) -> (LatestView, LatestActionView) {
    match (s.stage, e) {
        (LatestStage::Remote, LatestEventView::Bytes(r)) => match github_repository(r) {
            Err(x) => stop(s, x),
            Ok(name) => (
                LatestView { stage: LatestStage::Pages, repository: name, page: 1, releases: Seq::empty(), ..s },
                LatestActionView::Get(name, page_path(1)),
            ),
        },
        (LatestStage::Pages, LatestEventView::Page(r)) => match r {
            Err(x) => stop(s, x),
            Ok(None) => stop(s, list_error()),
            Ok(Some(None)) => stop(s, invalid_list_error()),
            Ok(Some(Some(entries))) => {
                let all = s.releases + entries;
                if entries.len() < 100 {
                    try_candidate(LatestView { releases: all, order, ..s }, 0)
                } else if s.page >= 1000 {
                    stop(s, paging_error())
                } else {
                    (
                        LatestView { page: (s.page + 1) as u64, releases: all, ..s },
                        LatestActionView::Get(s.repository, page_path((s.page + 1) as u64)),
                    )
                }
            },
        },
        (LatestStage::Tag, LatestEventView::Tag(r)) => match lookup_next(s.depth, r) {
            (d, LookupStepView::Get(p)) => (LatestView { depth: d, ..s }, LatestActionView::Get(s.repository, p)),
            (_, LookupStepView::Done(Err(x))) => stop(s, x),
            (_, LookupStepView::Done(Ok(None))) => stop(s, missing_tag_error()),
            (_, LookupStepView::Done(Ok(Some(c)))) => (
                LatestView { stage: LatestStage::Resolve, sha: c, ..s },
                LatestActionView::Resolve(c),
            ),
        },
        (LatestStage::Resolve, LatestEventView::Text(r)) => match r {
            Err(_) => stop(s, history_error()),
            Ok(_) => (
                at(s, LatestStage::MergeBase),
                LatestActionView::ReadBytes(seq!["merge-base"@, s.sha, s.revision]),
            ),
        },
        (LatestStage::MergeBase, LatestEventView::Bytes(r)) => match r {
            Err(x) => stop(s, x),
            Ok(b) => if b == line_bytes(s.sha) {
                (at(s, LatestStage::Done), LatestActionView::Finish(Ok(Some((s.order[s.index].1, s.sha)))))
            } else {
                try_candidate(s, s.index + 1)
            },
        },
        _ => (s, LatestActionView::Finish(Err(Seq::empty()))),
    }
}

pub open spec fn answers(stage: LatestStage, event: LatestEventView) -> bool {
    match stage {
        LatestStage::Remote | LatestStage::MergeBase => event is Bytes,
        LatestStage::Pages => event is Page,
        LatestStage::Tag => event is Tag,
        LatestStage::Resolve => event is Text,
        LatestStage::Done => false,
    }
}

/// What a search holds: at most 1000 pages; once it tries releases, the listing newest
/// first and a release to try.
pub open spec fn well_formed(s: LatestView) -> bool {
    &&& 1 <= s.page <= 1000
    &&& s.depth <= 8
    &&& (s.stage is Tag || s.stage is Resolve || s.stage is MergeBase) ==> 0 <= s.index < s.order.len() && ordered(
        s.order,
        s.releases,
    )
}

/// A later release is never taken for a first: a published commit that the local history
/// lacks stops the search rather than being passed over; a release is the answer only when
/// its tag's commit is an ancestor of the commit (their merge base is that commit); and the
/// releases are tried newest first, each after the ones before it failed to be an ancestor.
pub proof fn lemma_latest_is_an_ancestor(
    s: LatestView,
    e: LatestEventView,
    order: Seq<((u64, u64, u64, Seq<char>, Seq<char>), Seq<char>)>,
)
    requires
        well_formed(s),
    ensures
        s.stage is Resolve && (e matches LatestEventView::Text(r) && r is Err) ==> latest_next(s, e, order).1
            == LatestActionView::Finish(Err(history_error())),
        latest_next(s, e, order).1 matches LatestActionView::Finish(Ok(Some((t, c)))) ==> s.stage is MergeBase && e
            == LatestEventView::Bytes(Ok(line_bytes(s.sha))) && c == s.sha && t == s.order[s.index].1,
        latest_next(s, e, order).0.stage is Tag && !(s.stage is Tag) ==> (s.stage is Pages && latest_next(s, e, order).0.index == 0)
            || (s.stage is MergeBase && latest_next(s, e, order).0.index == s.index + 1),
{
}

impl LatestPublished {
    /// The search below the commit `revision`, and its first action: the URL of `origin`.
    pub fn start(revision: String) -> (r: (LatestPublished, LatestAction))
        ensures
            r.0@.stage == LatestStage::Remote,
            r.0@.revision == revision@,
            well_formed(r.0@),
            r.1@ == LatestActionView::ReadBytes(seq!["remote"@, "get-url"@, "origin"@]),
    {
        let a = args(&["remote", "get-url", "origin"]);
        assert(strings_view(a@) =~= seq!["remote"@, "get-url"@, "origin"@]);
        let s = LatestPublished {
            stage: LatestStage::Remote,
            revision,
            repository: String::new(),
            page: 1,
            releases: Vec::new(),
            order: Vec::new(),
            index: 0,
            depth: 0,
            sha: String::new(),
        };
        (s, LatestAction::ReadBytes(a))
    }

    /// Whether `event` is the kind of answer that the search waits for.
    pub fn accepts(&self, event: &LatestEvent) -> (r: bool)
        ensures
            r == answers(self.stage, event@),
    {
        match (self.stage, event) {
            (LatestStage::Remote, LatestEvent::Bytes(_)) | (LatestStage::MergeBase, LatestEvent::Bytes(_)) => true,
            (LatestStage::Pages, LatestEvent::Page(_)) => true,
            (LatestStage::Tag, LatestEvent::Tag(_)) => true,
            (LatestStage::Resolve, LatestEvent::Text(_)) => true,
            _ => false,
        }
    }

    fn fail(&mut self, e: String) -> (a: LatestAction)
        ensures
            (final(self)@, a@) == stop(old(self)@, e@),
    {
        self.stage = LatestStage::Done;
        LatestAction::Finish(Err(e))
    }

    fn try_candidate(&mut self, index: usize) -> (a: LatestAction)
        requires
            ordered(old(self)@.order, old(self)@.releases),
            1 <= old(self).page <= 1000,
            old(self).depth <= 8,
        ensures
            (final(self)@, a@) == try_candidate(old(self)@, index as int),
            well_formed(final(self)@),
    {
        if index >= self.order.len() {
            self.stage = LatestStage::Done;
            self.index = index;
            LatestAction::Finish(Ok(None))
        } else {
            let mut path = String::from_str("git/ref/tags/");
            path.append(self.order[index].tag.as_str());
            self.stage = LatestStage::Tag;
            self.index = index;
            self.depth = 0;
            LatestAction::Get(copy_text(self.repository.as_str()), path)
        }
    }

    /// Takes what came of the last action and gives the next one (see `latest_next`).
    pub fn advance(&mut self, event: LatestEvent) -> (a: LatestAction)
        requires
            well_formed(old(self)@),
            answers(old(self).stage, event@),
        ensures
            (final(self)@, a@) == latest_next(old(self)@, event@, final(self)@.order),
            well_formed(final(self)@),
    {
        match (self.stage, event) {
            (LatestStage::Remote, LatestEvent::Bytes(r)) => match Github::discover(r) {
                Err(e) => self.fail(e),
                Ok(g) => {
                    self.stage = LatestStage::Pages;
                    self.repository = g.repository;
                    self.page = 1;
                    self.releases = Vec::new();
                    LatestAction::Get(copy_text(self.repository.as_str()), page_text(1))
                },
            },
            (LatestStage::Pages, LatestEvent::Page(r)) => match r {
                Err(e) => self.fail(e),
                Ok(None) => self.fail(String::from_str("não foi possível listar releases; confira a autenticação do gh.")),
                Ok(Some(None)) => self.fail(String::from_str("lista de releases inválida.")),
                Ok(Some(Some(entries))) => {
                    let full = entries.len() >= 100;
                    if full && self.page >= 1000 {
                        return self.fail(String::from_str("lista de releases excedeu o limite de paginação."));
                    }
                    let mut entries = entries;
                    self.releases.append(&mut entries);
                    if !full {
                        self.order = published_order(&self.releases);
                        self.try_candidate(0)
                    } else {
                        self.page = self.page + 1;
                        LatestAction::Get(copy_text(self.repository.as_str()), page_text(self.page))
                    }
                },
            },
            (LatestStage::Tag, LatestEvent::Tag(r)) => {
                let mut lookup = TagLookup { depth: self.depth };
                match lookup.advance(r) {
                    LookupStep::Get(p) => {
                        self.depth = lookup.depth;
                        LatestAction::Get(copy_text(self.repository.as_str()), p)
                    },
                    LookupStep::Done(Err(e)) => self.fail(e),
                    LookupStep::Done(Ok(None)) => self.fail(String::from_str("release publicada sem tag.")),
                    LookupStep::Done(Ok(Some(c))) => {
                        self.stage = LatestStage::Resolve;
                        let sha = copy_text(c.as_str());
                        self.sha = c;
                        LatestAction::Resolve(sha)
                    },
                }
            },
            (LatestStage::Resolve, LatestEvent::Text(r)) => match r {
                Err(_) => self.fail(String::from_str(
                    "atualize o histórico com jj git fetch --remote origin antes de preparar a release.",
                )),
                Ok(_) => {
                    let a = args(&["merge-base", self.sha.as_str(), self.revision.as_str()]);
                    assert(strings_view(a@) =~= seq!["merge-base"@, self.sha@, self.revision@]);
                    self.stage = LatestStage::MergeBase;
                    LatestAction::ReadBytes(a)
                },
            },
            (LatestStage::MergeBase, LatestEvent::Bytes(r)) => match r {
                Err(e) => self.fail(e),
                Ok(b) => {
                    if prints_line(b.as_slice(), self.sha.as_str()) {
                        self.stage = LatestStage::Done;
                        let tag = copy_text(self.order[self.index].tag.as_str());
                        LatestAction::Finish(Ok(Some((tag, copy_text(self.sha.as_str())))))
                    } else {
                        assert(self@.order.len() == self.order@.len());
                        assert(self.index < self.order.len());
                        let next = self.index + 1;
                        self.try_candidate(next)
                    }
                },
            },
            (_, _) => LatestAction::Finish(Err(String::new())),
        }
    }
}

fn page_text(page: u64) -> (r: String)
    ensures
        r@ == page_path(page),
{
    let mut digits: Vec<char> = Vec::new();
    crate::version::push_decimal(&mut digits, page);
    assert(digits@.subrange(0, digits@.len() as int) == digits@);
    let mut p = String::from_str("releases?per_page=100&page=");
    p.append(crate::text::string_of(&digits, 0, digits.len()).as_str());
    p
}

} // verus!
