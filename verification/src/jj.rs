//! What the library decides from Jujutsu's answers: the workspace, the selected change,
//! its identity, conflicts, and whether it moved during a review.
use vstd::prelude::*;
use vstd::string::*;
use vstd::utf8::{decode_utf8, valid_utf8};
use crate::git::{Repository, some_line_begins_with, some_line_begins_with_chars};
use serde_json::Value;
use crate::process::{Outcome, diagnostic, excerpt, utf8_lossy, decode_lossy};
use crate::text::{
    find, lemma_find_from_bounds, starts_with, starts_with_chars, utf8_text,
    chars_of, find_chars, first_line, first_line_len, same_chars, slice_of, split_once,
    string_of, trim, is_blank,
};

verus! {

/// A colocated Jujutsu workspace over a Git repository.
#[derive(Debug)]
pub struct Jujutsu {
    pub git: Repository,
    /// The directory of another workspace to run in, when not the repository's own.
    pub workspace: Option<Vec<u8>>,
}

/// A change as Jujutsu reports it.
#[derive(Debug)]
pub struct Revision {
    pub id: String,
    pub change: String,
    pub parents: Vec<String>,
    pub description: String,
    pub author_complete: bool,
    pub committer_complete: bool,
}

pub struct RevisionView {
    pub id: Seq<char>,
    pub change: Seq<char>,
    pub parents: Seq<Seq<char>>,
    pub description: Seq<char>,
    pub author_complete: bool,
    pub committer_complete: bool,
}

impl View for Revision {
    type V = RevisionView;

    open spec fn view(&self) -> RevisionView {
        RevisionView {
            id: self.id@,
            change: self.change@,
            parents: self.parents@.map_values(|p: String| p@),
            description: self.description@,
            author_complete: self.author_complete,
            committer_complete: self.committer_complete,
        }
    }
}

/// The state of the workspace at one operation: the operation and the change `@`.
#[derive(Debug)]
pub struct Snapshot {
    pub operation: String,
    pub revision: Revision,
}

impl View for Snapshot {
    type V = (Seq<char>, RevisionView);

    open spec fn view(&self) -> (Seq<char>, RevisionView) {
        (self.operation@, self.revision@)
    }
}

fn same_strings(a: &Vec<String>, b: &Vec<String>) -> (r: bool)
    ensures
        r == (a@.map_values(|p: String| p@) == b@.map_values(|p: String| p@)),
{
    if a.len() != b.len() {
        assert(a@.map_values(|p: String| p@).len() != b@.map_values(|p: String| p@).len());
        return false;
    }
    let mut i: usize = 0;
    while i < a.len()
        invariant
            i <= a@.len(),
            a@.len() == b@.len(),
            forall|k: int| 0 <= k < i ==> a@[k]@ == b@[k]@,
        decreases a.len() - i,
    {
        if a[i] != b[i] {
            assert(a@.map_values(|p: String| p@)[i as int] != b@.map_values(|p: String| p@)[i as int]);
            return false;
        }
        i += 1;
    }
    assert(a@.map_values(|p: String| p@) =~= b@.map_values(|p: String| p@));
    true
}

impl Revision {
    /// A copy of the report.
    pub fn copy(&self) -> (r: Revision)
        ensures
            r@ == self@,
    {
        let mut parents: Vec<String> = Vec::new();
        let mut i: usize = 0;
        while i < self.parents.len()
            invariant
                i <= self.parents@.len(),
                parents@.map_values(|p: String| p@) == self.parents@.map_values(|p: String| p@).take(i as int),
            decreases self.parents.len() - i,
        {
            let ghost before = parents@.map_values(|p: String| p@);
            parents.push(self.parents[i].clone());
            assert(self.parents@.map_values(|p: String| p@).take(i + 1) =~= self.parents@.map_values(|p: String| p@).take(i as int).push(self.parents@[i as int]@));
            assert(parents@.map_values(|p: String| p@) =~= before.push(self.parents@[i as int]@));
            i += 1;
        }
        assert(self.parents@.map_values(|p: String| p@).take(self.parents@.len() as int) =~= self.parents@.map_values(|p: String| p@));
        Revision {
            id: self.id.clone(),
            change: self.change.clone(),
            parents,
            description: self.description.clone(),
            author_complete: self.author_complete,
            committer_complete: self.committer_complete,
        }
    }

    /// Whether two reports describe the same change in the same state.
    pub fn same(&self, other: &Revision) -> (r: bool)
        ensures
            r == (self@ == other@),
    {
        self.id == other.id && self.change == other.change && same_strings(&self.parents, &other.parents)
            && self.description == other.description && self.author_complete == other.author_complete
            && self.committer_complete == other.committer_complete
    }
}

impl Snapshot {
    pub fn same(&self, other: &Snapshot) -> (r: bool)
        ensures
            r == (self@ == other@),
    {
        self.operation == other.operation && self.revision.same(&other.revision)
    }
}

pub open spec fn not_colocated_error() -> Seq<char> {
    "execute em um workspace Jujutsu colocated (jj git init --colocate)."@
}

pub open spec fn identity_error(field: Seq<char>) -> Seq<char> {
    "identidade do Jujutsu incompleta ("@ + field
        + "). Configure nome e e-mail com jj config set --repo user.name NOME e jj config set --repo user.email EMAIL antes de gerar a mensagem."@
}

pub open spec fn author_error(change: Seq<char>) -> Seq<char> {
    "a mudança tem autor incompleto. Configure sua identidade e, se a mudança for sua, execute jj metaedit -r "@
        + change + " --update-author antes de continuar."@
}

pub open spec fn committer_error(change: Seq<char>) -> Seq<char> {
    "a mudança tem identidade de committer incompleta. Configure sua identidade e execute jj metaedit -r "@
        + change + " --force-rewrite para atualizar os metadados sem alterar o conteúdo ou a mensagem."@
}

pub open spec fn moved_error() -> Seq<char> {
    "a mudança ou o estado do Jujutsu mudou durante a revisão. Revise e execute novamente."@
}

pub open spec fn invalid_commit_error() -> Seq<char> {
    "commit inválido."@
}

pub open spec fn conflicts_error() -> Seq<char> {
    "a mudança contém conflitos. Resolva-os com jj antes de continuar."@
}

pub open spec fn merge_error() -> Seq<char> {
    "conclua uma mudança linear, sem commit de merge."@
}


/// The verdict on a commit object's text: it must have a header, and no header line may
/// record conflicted trees (`jj:trees`).
pub open spec fn conflict_verdict(text: Seq<char>) -> Option<Seq<char>> {
    match split_once(text, "\n\n"@) {
        None => Some(invalid_commit_error()),
        Some((headers, _)) => if some_line_begins_with(headers, "jj:trees "@) {
            Some(conflicts_error())
        } else {
            None
        },
    }
}

/// The tree that a change's diff starts from.
#[derive(Debug)]
pub enum DiffBase {
    /// The empty tree: the change has no parent, or only the root commit.
    EmptyTree,
    /// The change's only parent.
    Parent(String),
}

/// Whether `id` is made of zeros only (the root commit).
pub open spec fn all_zeros(id: Seq<char>) -> bool {
    forall|i: int| 0 <= i < id.len() ==> #[trigger] id[i] == '0'
}

/// The base of a change's diff, given its parents.
pub open spec fn diff_base_of(parents: Seq<Seq<char>>) -> Result<Option<Seq<char>>, Seq<char>> {
    if parents.len() == 0 {
        Ok(None)
    } else if parents.len() == 1 {
        if all_zeros(parents[0]) {
            Ok(None)
        } else {
            Ok(Some(parents[0]))
        }
    } else {
        Err(merge_error())
    }
}

pub open spec fn base_view(r: Result<DiffBase, String>) -> Result<Option<Seq<char>>, Seq<char>> {
    match r {
        Ok(DiffBase::EmptyTree) => Ok(None),
        Ok(DiffBase::Parent(p)) => Ok(Some(p@)),
        Err(e) => Err(e@),
    }
}

impl Jujutsu {
    /// The workspace over `git`, which must be colocated (hold a `.jj` directory).
    pub fn discover(git: Repository, colocated: bool) -> (r: Result<Jujutsu, String>)
        ensures
            colocated ==> (r matches Ok(j) && j.git == git && j.workspace is None),
            !colocated ==> (r matches Err(e) && e@ == not_colocated_error()),
    {
        if !colocated {
            return Err(String::from_str("execute em um workspace Jujutsu colocated (jj git init --colocate)."));
        }
        Jujutsu { git, workspace: None }.ok_self()
    }

    fn ok_self(self) -> (r: Result<Jujutsu, String>)
        ensures
            r == Ok::<Jujutsu, String>(self),
    {
        Ok(self)
    }

    /// Requires the identity field `field` to be set, given what
    /// `jj config get <field>` printed.
    pub fn ensure_configured_identity(&self, field: &str, value: &str) -> (r: Result<(), String>)
        ensures
            r is Ok <==> trim(value@).len() > 0,
            r matches Err(e) ==> e@ == identity_error(field@),
    {
        if is_blank(&chars_of(value)) {
            let mut e = String::from_str("identidade do Jujutsu incompleta (");
            e.append(field);
            e.append("). Configure nome e e-mail com jj config set --repo user.name NOME e jj config set --repo user.email EMAIL antes de gerar a mensagem.");
            return Err(e);
        }
        Ok(())
    }

    /// Requires the change's author to be complete.
    pub fn ensure_author(&self, revision: &Revision) -> (r: Result<(), String>)
        ensures
            r is Ok <==> revision.author_complete,
            r matches Err(e) ==> e@ == author_error(revision.change@),
    {
        if !revision.author_complete {
            let mut e = String::from_str(
                "a mudança tem autor incompleto. Configure sua identidade e, se a mudança for sua, execute jj metaedit -r ",
            );
            e.append(revision.change.as_str());
            e.append(" --update-author antes de continuar.");
            return Err(e);
        }
        Ok(())
    }

    /// Requires the change's author, then its committer, to be complete.
    pub fn ensure_publishable_identity(&self, revision: &Revision) -> (r: Result<(), String>)
        ensures
            r is Ok <==> revision.author_complete && revision.committer_complete,
            !revision.author_complete ==> (r matches Err(e) && e@ == author_error(revision.change@)),
            revision.author_complete && !revision.committer_complete ==> (r matches Err(e) && e@
                == committer_error(revision.change@)),
    {
        publishable(revision)
    }
}

/// Requires a change's author, then its committer, to be complete.
pub fn publishable(revision: &Revision) -> (r: Result<(), String>)
    ensures
        r is Ok <==> revision.author_complete && revision.committer_complete,
        !revision.author_complete ==> (r matches Err(e) && e@ == author_error(revision.change@)),
        revision.author_complete && !revision.committer_complete ==> (r matches Err(e) && e@
            == committer_error(revision.change@)),
{
    {
        if !revision.author_complete {
            let mut e = String::from_str(
                "a mudança tem autor incompleto. Configure sua identidade e, se a mudança for sua, execute jj metaedit -r ",
            );
            e.append(revision.change.as_str());
            e.append(" --update-author antes de continuar.");
            return Err(e);
        }
        if !revision.committer_complete {
            let mut e = String::from_str(
                "a mudança tem identidade de committer incompleta. Configure sua identidade e execute jj metaedit -r ",
            );
            e.append(revision.change.as_str());
            e.append(" --force-rewrite para atualizar os metadados sem alterar o conteúdo ou a mensagem.");
            return Err(e);
        }
        Ok(())
    }
}

impl Jujutsu {

    /// Requires the workspace and `@` to be as `snapshot` recorded, given a new snapshot.
    pub fn ensure_unchanged(&self, snapshot: &Snapshot, current: &Snapshot) -> (r: Result<(), String>)
        ensures
            r is Ok <==> snapshot@ == current@,
            r matches Err(e) ==> e@ == moved_error(),
    {
        if !current.same(snapshot) {
            return Err(String::from_str(
                "a mudança ou o estado do Jujutsu mudou durante a revisão. Revise e execute novamente.",
            ));
        }
        Ok(())
    }

    /// Refuses a change with conflicts, given the text of its commit object.
    pub fn conflicts_in(&self, text: &str) -> (r: Result<(), String>)
        ensures
            match r {
                Ok(()) => conflict_verdict(text@) is None,
                Err(e) => conflict_verdict(text@) == Some(e@),
            },
    {
        conflicts(text)
    }
}

/// Refuses a change with conflicts, given the text of its commit object.
pub fn conflicts(text: &str) -> (r: Result<(), String>)
    ensures
        match r {
            Ok(()) => conflict_verdict(text@) is None,
            Err(e) => conflict_verdict(text@) == Some(e@),
        },
{
    {
        let chars = chars_of(text);
        let at = match find_chars(&chars, &chars_of("\n\n")) {
            None => return Err(String::from_str("commit inválido.")),
            Some(at) => at,
        };
        let headers = slice_of(&chars, 0, at);
        assert(headers@ == chars@.take(at as int));
        if some_line_begins_with_chars(&headers, &chars_of("jj:trees ")) {
            return Err(String::from_str("a mudança contém conflitos. Resolva-os com jj antes de continuar."));
        }
        Ok(())
    }
}

impl Jujutsu {

    /// Refuses a change with conflicts, given the bytes of its commit object
    /// (`git cat-file commit`).
    pub fn ensure_no_conflicts(&self, object: &[u8]) -> (r: Result<(), String>)
        ensures
            match r {
                Ok(()) => conflict_verdict(utf8_lossy(object@)) is None,
                Err(e) => conflict_verdict(utf8_lossy(object@)) == Some(e@),
            },
    {
        let text = decode_lossy(object);
        self.conflicts_in(text.as_str())
    }

    /// The tree that the diff of `revision` starts from; a merge is refused.
    pub fn diff(&self, revision: &Revision) -> (r: Result<DiffBase, String>)
        ensures
            base_view(r) == diff_base_of(revision@.parents),
    {
        let ghost ps = revision@.parents;
        if revision.parents.len() == 0 {
            return Ok(DiffBase::EmptyTree);
        }
        if revision.parents.len() > 1 {
            return Err(String::from_str("conclua uma mudança linear, sem commit de merge."));
        }
        let parent = &revision.parents[0];
        assert(ps[0] == parent@);
        let chars = chars_of(parent.as_str());
        let mut i: usize = 0;
        while i < chars.len()
            invariant
                i <= chars@.len(),
                chars@ == parent@,
                ps == revision@.parents,
                ps.len() == 1,
                ps[0] == parent@,
                forall|k: int| 0 <= k < i ==> chars@[k] == '0',
            decreases chars.len() - i,
        {
            if chars[i] != '0' {
                let p = parent.clone();
                assert(ps[0][i as int] != '0');
                return Ok(DiffBase::Parent(p));
            }
            i += 1;
        }
        Ok(DiffBase::EmptyTree)
    }
}

pub open spec fn jj_failure(stderr: Seq<u8>) -> Seq<char> {
    "Jujutsu: "@ + excerpt(utf8_lossy(stderr))
}

pub open spec fn jj_not_utf8_error() -> Seq<char> {
    "saída do jj não está em UTF-8."@
}

/// The line that `jj --no-integrate-operation` prints before the operation it left.
pub open spec fn uncommitted_prefix() -> Seq<char> {
    "Operation left uncommitted because --no-integrate-operation was requested: "@
}

pub open spec fn isolated_error(stderr: Seq<char>) -> Seq<char> {
    "jj 0.45.1 não retornou a operação isolada: "@ + stderr
}

/// What follows `prefix` on the first line of `s` that starts with it (`str::lines`: a
/// line ends at a line feed, which takes a carriage return just before it along).
pub open spec fn first_prefixed(s: Seq<char>, prefix: Seq<char>) -> Option<Seq<char>>
    decreases s.len(),
{
    match find(s, "\n"@) {
        None => if starts_with(s, prefix) {
            Some(s.skip(prefix.len() as int))
        } else {
            None
        },
        Some(i) => {
            let line = if i > 0 && s[i - 1] == '\r' {
                s.take(i - 1)
            } else {
                s.take(i)
            };
            if starts_with(line, prefix) {
                Some(line.skip(prefix.len() as int))
            } else {
                proof {
                    reveal_strlit("\n");
                    lemma_find_from_bounds(s, "\n"@, 0);
                }
                first_prefixed(s.skip(i + 1), prefix)
            }
        },
    }
}

pub open spec fn hex_digit(c: char) -> bool {
    ('0' <= c <= '9') || ('a' <= c <= 'f') || ('A' <= c <= 'F')
}

/// Whether `id` names an operation: a non-empty run of hexadecimal digits.
pub open spec fn operation_id(id: Seq<char>) -> bool {
    id.len() > 0 && forall|i: int| 0 <= i < id.len() ==> #[trigger] hex_digit(id[i])
}

/// The operation that `jj --no-integrate-operation` left, from its error output.
pub open spec fn isolated_operation(stderr: Seq<u8>) -> Result<Seq<char>, Seq<char>> {
    match first_prefixed(utf8_lossy(stderr), uncommitted_prefix()) {
        Some(id) => if operation_id(id) {
            Ok(id)
        } else {
            Err(isolated_error(utf8_lossy(stderr)))
        },
        None => Err(isolated_error(utf8_lossy(stderr))),
    }
}

/// What a finished `jj` command gives: its output in UTF-8, or for a command that leaves
/// its operation unintegrated that operation; a failure quotes the error output.
pub open spec fn jj_output(success: bool, stdout: Seq<u8>, stderr: Seq<u8>, isolated: bool) -> Result<
    Seq<char>,
    Seq<char>,
> {
    if !success {
        Err(jj_failure(stderr))
    } else if isolated {
        isolated_operation(stderr)
    } else if valid_utf8(stdout) {
        Ok(decode_utf8(stdout))
    } else {
        Err(jj_not_utf8_error())
    }
}

fn first_prefixed_chars(s: &[char], prefix: &[char]) -> (r: Option<Vec<char>>)
    ensures
        match r {
            Some(v) => first_prefixed(s@, prefix@) == Some(v@),
            None => first_prefixed(s@, prefix@) is None,
        },
    decreases s@.len(),
{
    proof {
        reveal_strlit("\n");
    }
    match find_chars(s, &chars_of("\n")) {
        None => {
            if starts_with_chars(s, prefix) {
                let v = slice_of(s, prefix.len(), s.len());
                Some(v)
            } else {
                None
            }
        },
        Some(i) => {
            assert(i + 1 <= s@.len() && s@.len() == s.len());
            let end = if i > 0 && s[i - 1] == '\r' {
                i - 1
            } else {
                i
            };
            let line = slice_of(s, 0, end);
            if starts_with_chars(&line, prefix) {
                Some(slice_of(&line, prefix.len(), line.len()))
            } else {
                let rest = slice_of(s, i + 1, s.len());
                assert(rest@ == s@.skip(i + 1));
                first_prefixed_chars(&rest, prefix)
            }
        },
    }
}

fn operation_id_chars(id: &[char]) -> (r: bool)
    ensures
        r == operation_id(id@),
{
    if id.len() == 0 {
        return false;
    }
    let mut i: usize = 0;
    while i < id.len()
        invariant
            i <= id@.len(),
            forall|k: int| 0 <= k < i ==> #[trigger] hex_digit(id@[k]),
        decreases id.len() - i,
    {
        let c = id[i];
        if !(('0' <= c && c <= '9') || ('a' <= c && c <= 'f') || ('A' <= c && c <= 'F')) {
            assert(!hex_digit(id@[i as int]));
            return false;
        }
        i += 1;
    }
    true
}

impl Jujutsu {
    /// What a finished `jj` command gives (see `jj_output`); `isolated` when it ran with
    /// `--no-integrate-operation`.
    pub fn execute(&self, outcome: Outcome, isolated: bool) -> (r: Result<String, String>)
        ensures
            crate::message::text_result(r) == jj_output(outcome.success, outcome.stdout@, outcome.stderr@, isolated),
    {
        if !outcome.success {
            let mut e = String::from_str("Jujutsu: ");
            e.append(diagnostic(&outcome.stderr).as_str());
            return Err(e);
        }
        if isolated {
            let text = decode_lossy(&outcome.stderr);
            let chars = chars_of(text.as_str());
            match first_prefixed_chars(&chars, &chars_of(
                "Operation left uncommitted because --no-integrate-operation was requested: ",
            )) {
                Some(id) => {
                    if operation_id_chars(&id) {
                        assert(id@.subrange(0, id@.len() as int) == id@);
                        return Ok(string_of(&id, 0, id.len()));
                    }
                },
                None => {},
            }
            let mut e = String::from_str("jj 0.45.1 não retornou a operação isolada: ");
            e.append(text.as_str());
            return Err(e);
        }
        match utf8_text(outcome.stdout.as_slice()) {
            Some(t) => Ok(t),
            None => Err(String::from_str("saída do jj não está em UTF-8.")),
        }
    }
}

/// What the library reads of the JSON that `jj log -T 'json(self)'` prints for a change;
/// a field is `None` where the JSON holds no text (or no list) there.
#[derive(Debug)]
pub struct RevisionFields {
    pub commit_id: Option<String>,
    pub change_id: Option<String>,
    pub description: Option<String>,
    pub parents: Option<Vec<Option<String>>>,
    pub author_name: Option<String>,
    pub author_email: Option<String>,
    pub committer_name: Option<String>,
    pub committer_email: Option<String>,
}

pub open spec fn opt_view(o: Option<String>) -> Option<Seq<char>> {
    match o {
        Some(s) => Some(s@),
        None => None,
    }
}

pub open spec fn selection_error() -> Seq<char> {
    "a revisão deve selecionar exatamente uma mudança."@
}

pub open spec fn parents_error() -> Seq<char> {
    "pais ausentes na revisão jj."@
}

pub open spec fn parent_error() -> Seq<char> {
    "pai inválido."@
}

pub open spec fn missing_field_error(field: Seq<char>) -> Seq<char> {
    "campo ausente na revisão jj: "@ + field + "."@
}

/// Whether an identity field holds text other than white space.
pub open spec fn filled(o: Option<String>) -> bool {
    filled_view(opt_view(o))
}

pub open spec fn filled_view(o: Option<Seq<char>>) -> bool {
    match o {
        Some(s) => trim(s).len() > 0,
        None => false,
    }
}

pub open spec fn all_texts(ps: Seq<Option<Seq<char>>>) -> bool {
    forall|i: int| 0 <= i < ps.len() ==> #[trigger] ps[i] is Some
}

/// The fields of a JSON report on a change, as plain values: commit id, change id,
/// description, parents, author name and e-mail, committer name and e-mail.
pub type FieldsView = (
    Option<Seq<char>>,
    Option<Seq<char>>,
    Option<Seq<char>>,
    Option<Seq<Option<Seq<char>>>>,
    Option<Seq<char>>,
    Option<Seq<char>>,
    Option<Seq<char>>,
    Option<Seq<char>>,
);

pub open spec fn parents_view(ps: Option<Vec<Option<String>>>) -> Option<Seq<Option<Seq<char>>>> {
    match ps {
        Some(v) => Some(v@.map_values(|p: Option<String>| opt_view(p))),
        None => None,
    }
}

pub open spec fn fields_view(fields: Option<RevisionFields>) -> Option<FieldsView> {
    match fields {
        None => None,
        Some(f) => Some((
            opt_view(f.commit_id),
            opt_view(f.change_id),
            opt_view(f.description),
            parents_view(f.parents),
            opt_view(f.author_name),
            opt_view(f.author_email),
            opt_view(f.committer_name),
            opt_view(f.committer_email),
        )),
    }
}

/// The change that a JSON report describes (`None` where the output was not one JSON
/// value): parents first, then the identifiers and the description, each of which must be
/// text; an identity is complete when both name and e-mail hold text.
pub open spec fn revision_verdict(fields: Option<FieldsView>) -> Result<RevisionView, Seq<char>> {
    match fields {
        None => Err(selection_error()),
        Some((commit_id, change_id, description, parents, author_name, author_email, committer_name, committer_email)) => match parents {
            None => Err(parents_error()),
            Some(ps) => if !all_texts(ps) {
                Err(parent_error())
            } else {
                match (commit_id, change_id, description) {
                    (None, _, _) => Err(missing_field_error("commit_id"@)),
                    (Some(_), None, _) => Err(missing_field_error("change_id"@)),
                    (Some(_), Some(_), None) => Err(missing_field_error("description"@)),
                    (Some(id), Some(change), Some(description)) => Ok(
                        RevisionView {
                            id,
                            change,
                            parents: ps.map_values(|p: Option<Seq<char>>| p.unwrap()),
                            description,
                            author_complete: filled_view(author_name) && filled_view(author_email),
                            committer_complete: filled_view(committer_name) && filled_view(committer_email),
                        },
                    ),
                }
            },
        },
    }
}

/// The change that the fields read of a JSON report describe (see `revision_verdict`).
pub open spec fn revision_from(fields: Option<RevisionFields>) -> Result<RevisionView, Seq<char>> {
    revision_verdict(fields_view(fields))
}

fn filled_text(o: &Option<String>) -> (r: bool)
    ensures
        r == filled(*o),
{
    match o {
        Some(s) => !is_blank(&chars_of(s.as_str())),
        None => false,
    }
}

fn field_text(o: &Option<String>, field: &str) -> (r: Result<String, String>)
    ensures
        match r {
            Ok(s) => opt_view(*o) == Some(s@),
            Err(e) => opt_view(*o) is None && e@ == missing_field_error(field@),
        },
{
    match o {
        Some(s) => Ok(s.clone()),
        None => {
            let mut e = String::from_str("campo ausente na revisão jj: ");
            e.append(field);
            e.append(".");
            Err(e)
        },
    }
}

/// What `serde_json` reads of the output of `jj log -T 'json(self)'`: `None` where it is
/// not one JSON value, else the strings under `commit_id`, `change_id`, `description`,
/// `author.name`, `author.email`, `committer.name` and `committer.email` and the array
/// `parents` (each entry a string or `None`), each `None` where missing or of another kind.
pub uninterp spec fn json_revision(output: Seq<char>) -> Option<FieldsView>;

/// Parses `output` with `serde_json::from_str` as a `Value` and reads its fields by
/// indexing and `as_str`/`as_array`. The contract names the result.
#[verifier::external_body]
fn parse_revision(output: &str) -> (r: Option<RevisionFields>)
    ensures
        fields_view(r) == json_revision(output@),
{
    let value: Value = serde_json::from_str(output).ok()?;
    let text = |v: &Value| v.as_str().map(str::to_owned);
    Some(RevisionFields {
        commit_id: text(&value["commit_id"]),
        change_id: text(&value["change_id"]),
        description: text(&value["description"]),
        parents: value["parents"].as_array().map(|ps| ps.iter().map(text).collect()),
        author_name: text(&value["author"]["name"]),
        author_email: text(&value["author"]["email"]),
        committer_name: text(&value["committer"]["name"]),
        committer_email: text(&value["committer"]["email"]),
    })
}

impl Jujutsu {
    /// The change that `jj log -T 'json(self)'` reported, from what it printed (see
    /// `revision_verdict`).
    pub fn revision_of(&self, output: &str) -> (r: Result<Revision, String>)
        ensures
            match r {
                Ok(rev) => revision_verdict(json_revision(output@)) == Ok::<RevisionView, Seq<char>>(rev@),
                Err(e) => revision_verdict(json_revision(output@)) == Err::<RevisionView, Seq<char>>(e@),
            },
    {
        self.revision(parse_revision(output))
    }

    /// The change that `jj log -T 'json(self)'` reported, from the fields of its JSON
    /// (`None` when the output was not a single JSON value).
    pub fn revision(&self, fields: Option<RevisionFields>) -> (r: Result<Revision, String>)
        ensures
            match r {
                Ok(rev) => revision_from(fields) == Ok::<RevisionView, Seq<char>>(rev@),
                Err(e) => revision_from(fields) == Err::<RevisionView, Seq<char>>(e@),
            },
    {
        let f = match fields {
            None => return Err(String::from_str("a revisão deve selecionar exatamente uma mudança.")),
            Some(f) => f,
        };
        let ps = match &f.parents {
            None => return Err(String::from_str("pais ausentes na revisão jj.")),
            Some(ps) => ps,
        };
        let ghost pv = ps@;
        let mut parents: Vec<String> = Vec::new();
        let mut i: usize = 0;
        while i < ps.len()
            invariant
                fields == Some(f),
                f.parents == Some(*ps),
                pv == ps@,
                i <= pv.len(),
                parents@.len() == i,
                all_texts(pv.take(i as int).map_values(|p: Option<String>| opt_view(p))),
                forall|k: int| 0 <= k < i ==> opt_view(pv[k]) == Some(#[trigger] parents@[k]@),
            decreases ps.len() - i,
        {
            let item = &ps[i];
            assert(*item == pv[i as int]);
            match item {
                None => {
                    assert(pv.map_values(|p: Option<String>| opt_view(p))[i as int] is None);
                    assert(!all_texts(pv.map_values(|p: Option<String>| opt_view(p))));
                    return Err(String::from_str("pai inválido."));
                },
                Some(p) => {
                    let ghost before = parents@;
                    let q = p.clone();
                    parents.push(q);
                    assert(pv.take(i + 1) =~= pv.take(i as int).push(pv[i as int]));
                    assert(pv.take(i + 1).map_values(|p: Option<String>| opt_view(p))
                        =~= pv.take(i as int).map_values(|p: Option<String>| opt_view(p)).push(opt_view(pv[i as int])));
                    assert forall|k: int| 0 <= k < i + 1 implies opt_view(pv[k]) == Some(
                        #[trigger] parents@[k]@,
                    ) by {
                        if k < i {
                            assert(parents@[k] == before[k]);
                            assert(opt_view(pv[k]) == Some(before[k]@));
                        }
                    }
                },
            }
            i += 1;
        }
        assert(pv.take(pv.len() as int) =~= pv);
        assert(all_texts(pv.map_values(|p: Option<String>| opt_view(p))));
        let id = field_text(&f.commit_id, "commit_id")?;
        let change = field_text(&f.change_id, "change_id")?;
        let description = field_text(&f.description, "description")?;
        let author_complete = filled_text(&f.author_name) && filled_text(&f.author_email);
        let committer_complete = filled_text(&f.committer_name) && filled_text(&f.committer_email);
        let rev = Revision { id, change, parents, description, author_complete, committer_complete };
        assert(rev@.parents =~= ps@.map_values(|p: Option<String>| opt_view(p)).map_values(|p: Option<Seq<char>>| p.unwrap()));
        Ok(rev)
    }

    /// The state of the workspace: the last operation as `jj op log` printed it and the
    /// change `@` at that operation, refused when its commit object (`git cat-file
    /// commit`) records conflicts.
    pub fn snapshot(&self, operation: String, revision: Revision, object: &[u8]) -> (r: Result<Snapshot, String>)
        ensures
            match r {
                Ok(s) => conflict_verdict(utf8_lossy(object@)) is None && s@ == (operation@, revision@),
                Err(e) => conflict_verdict(utf8_lossy(object@)) == Some(e@),
            },
    {
        self.ensure_no_conflicts(object)?;
        Ok(Snapshot { operation, revision })
    }
}

/// The arguments that finish a change: `jj commit` with `message`, pinned at the reviewed
/// operation so that later edits stay out of it.
pub open spec fn commit_arguments(operation: Seq<char>, message: Seq<char>) -> Seq<Seq<char>> {
    seq!["--at-operation"@, operation, "commit"@, "--message"@, message]
}

pub open spec fn text_of(r: Result<String, String>) -> Result<Seq<char>, Seq<char>> {
    match r {
        Ok(s) => Ok(s@),
        Err(e) => Err(e@),
    }
}

/// The verdict before finishing a change: the identity that `jj config get` printed for
/// `user.name` and `user.email` (or those reads' errors), then a new snapshot that must
/// equal the reviewed one.
pub open spec fn finish_verdict(
    snapshot: (Seq<char>, RevisionView),
    message: Seq<char>,
    name: Result<Seq<char>, Seq<char>>,
    email: Result<Seq<char>, Seq<char>>,
    current: Result<(Seq<char>, RevisionView), Seq<char>>,
) -> Result<Seq<Seq<char>>, Seq<char>> {
    match name {
        Err(e) => Err(e),
        Ok(n) => if trim(n).len() == 0 {
            Err(identity_error("user.name"@))
        } else {
            match email {
                Err(e) => Err(e),
                Ok(m) => if trim(m).len() == 0 {
                    Err(identity_error("user.email"@))
                } else {
                    match current {
                        Err(e) => Err(e),
                        Ok(c) => if c != snapshot {
                            Err(moved_error())
                        } else {
                            Ok(commit_arguments(snapshot.0, message))
                        },
                    }
                },
            }
        },
    }
}

impl Jujutsu {
    /// Finishes a reviewed change: checks the identity and that nothing moved, and gives
    /// the arguments of the `jj` command that commits it with `message`.
    pub fn finish(
        &self,
        snapshot: &Snapshot,
        message: &str,
        name: Result<String, String>,
        email: Result<String, String>,
        current: Result<Snapshot, String>,
    ) -> (r: Result<Vec<String>, String>)
        ensures
            match r {
                Ok(args) => finish_verdict(snapshot@, message@, text_of(name), text_of(email), match current {
                    Ok(c) => Ok(c@),
                    Err(e) => Err(e@),
                }) == Ok::<Seq<Seq<char>>, Seq<char>>(args@.map_values(|a: String| a@)),
                Err(e) => finish_verdict(snapshot@, message@, text_of(name), text_of(email), match current {
                    Ok(c) => Ok(c@),
                    Err(e) => Err(e@),
                }) == Err::<Seq<Seq<char>>, Seq<char>>(e@),
            },
    {
        let n = name?;
        self.ensure_configured_identity("user.name", n.as_str())?;
        let m = email?;
        self.ensure_configured_identity("user.email", m.as_str())?;
        let c = current?;
        self.ensure_unchanged(snapshot, &c)?;
        let mut args: Vec<String> = Vec::new();
        args.push(String::from_str("--at-operation"));
        args.push(snapshot.operation.clone());
        args.push(String::from_str("commit"));
        args.push(String::from_str("--message"));
        args.push(String::from_str(message));
        assert(args@.map_values(|a: String| a@) =~= commit_arguments(snapshot@.0, message@));
        Ok(args)
    }
}

pub open spec fn empty_tree_error() -> Seq<char> {
    "árvore vazia inválida."@
}

impl Jujutsu {
    /// The identifier of the empty tree, from what `git hash-object -t tree --stdin` printed
    /// for no input.
    pub fn empty_tree(&self, printed: &[u8]) -> (r: Result<String, String>)
        ensures
            match r {
                Ok(t) => valid_utf8(printed@) && t@ == trim(decode_utf8(printed@)),
                Err(e) => !valid_utf8(printed@) && e@ == empty_tree_error(),
            },
    {
        match utf8_text(printed) {
            None => Err(String::from_str("árvore vazia inválida.")),
            Some(t) => {
                let c = crate::text::trim_chars(&chars_of(t.as_str()));
                assert(c@.subrange(0, c@.len() as int) == c@);
                Ok(string_of(&c, 0, c.len()))
            },
        }
    }
}

} // verus!
