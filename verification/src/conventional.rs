//! The Conventional Commits parser of the `git-conventional` crate, seen through plain values.
use vstd::prelude::*;

verus! {

/// What the parser reports of a commit message: its type, its description, whether it
/// declares a breaking change, and whether its type is `feat` (the crate compares types
/// without regard to case).
#[derive(Debug)]
pub struct ConventionalCommit {
    pub kind: String,
    pub description: String,
    pub breaking: bool,
    pub feature: bool,
}

impl View for ConventionalCommit {
    type V = (Seq<char>, Seq<char>, bool, bool);

    open spec fn view(&self) -> (Seq<char>, Seq<char>, bool, bool) {
        (self.kind@, self.description@, self.breaking, self.feature)
    }
}

/// The parse of `text` by `git_conventional::Commit::parse`: `None` when the crate rejects
/// it, else the type, description, breaking flag and `feat` test of the parsed commit.
pub uninterp spec fn conventional_commit(text: Seq<char>) -> Option<(Seq<char>, Seq<char>, bool, bool)>;

/// Calls `git_conventional::Commit::parse` and reads `type_()`, `description()`,
/// `breaking()` and `type_() == Type::FEAT` from the result. The contract only names the
/// outcome: it depends on the text alone.
#[verifier::external_body]
pub(crate) fn parse_conventional(text: &str) -> (r: Option<ConventionalCommit>)
    ensures
        r is Some <==> conventional_commit(text@) is Some,
        r matches Some(c) ==> conventional_commit(text@) == Some(c@),
{
    match git_conventional::Commit::parse(text) {
        Ok(commit) => Some(ConventionalCommit {
            kind: commit.type_().as_str().to_owned(),
            description: commit.description().to_owned(),
            breaking: commit.breaking(),
            feature: commit.type_() == git_conventional::Type::FEAT,
        }),
        Err(_) => None,
    }
}

/// Whether a commit of type `kind`, breaking or not, calls for a release: a breaking change,
/// a feature, a fix or a performance improvement.
pub open spec fn calls_for_release(kind: Seq<char>, breaking: bool) -> bool {
    breaking || kind == "feat"@ || kind == "fix"@ || kind == "perf"@
}

/// Whether the parsed commit calls for a release.
pub fn release_impact(commit: &ConventionalCommit) -> (r: bool)
    ensures
        r == calls_for_release(commit.kind@, commit.breaking),
{
    let k = crate::text::chars_of(commit.kind.as_str());
    commit.breaking || crate::text::same_chars(&k, &crate::text::chars_of("feat"))
        || crate::text::same_chars(&k, &crate::text::chars_of("fix"))
        || crate::text::same_chars(&k, &crate::text::chars_of("perf"))
}

} // verus!
