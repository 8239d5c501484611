//! What the library decides from Git's answers: the repository root, full history, the
//! commits that references name, and whether a range's diff may be sent to the AI.
use vstd::prelude::*;
use vstd::string::*;
use vstd::utf8::{decode_utf8, valid_utf8};
use vstd::utf8::encode_utf8;
use crate::process::{Outcome, Request, diagnostic, env_view, excerpt, utf8_lossy, decode_lossy};
use crate::text::{
    ascii_lower, ascii_lowercase, chars_of, ends_with, ends_with_chars, find_chars, has_char,
    is_control, is_control_char, occurs_at, occurs_at_chars, same_chars, slice_of, starts_with,
    starts_with_chars, string_of, trim, trim_chars, utf8_text,
};

verus! {

/// A Git repository with a working directory.
#[derive(Debug)]
pub struct Repository {
    /// The top-level directory, as the bytes of its path.
    pub root: Vec<u8>,
}

/// How long a Git command may run, in seconds.
pub const GIT_TIMEOUT_SECS: u64 = 120;

/// How many bytes each output of a Git command may hold (4 MiB).
pub const GIT_OUTPUT_LIMIT: usize = 4194304;

/// How long the diff that may go to the AI may take to produce, in seconds.
pub const DIFF_TIMEOUT_SECS: u64 = 30;

/// The most bytes of diff that a range may send to the AI (128 KiB).
pub const MAX_DIFF_BYTES: usize = 131072;

/// Whether `req` runs Git in `root` with `args`, no input, the given time and output
/// limits, and optional locks off (`GIT_OPTIONAL_LOCKS=0`), so that a read never takes
/// the index lock.
pub open spec fn git_request(req: Request, root: Seq<u8>, args: Seq<Seq<char>>, timeout: u64, limit: usize) -> bool {
    &&& req.dir@ == root
    &&& strings_view(req.args@) == args
    &&& req.input@.len() == 0
    &&& req.timeout_secs == timeout
    &&& req.output_limit == limit
    &&& env_view(req.env@) == seq![("GIT_OPTIONAL_LOCKS"@, "0"@)]
}

fn git_env() -> (r: Vec<(String, String)>)
    ensures
        env_view(r@) == seq![("GIT_OPTIONAL_LOCKS"@, "0"@)],
{
    let mut env: Vec<(String, String)> = Vec::new();
    env.push((String::from_str("GIT_OPTIONAL_LOCKS"), String::from_str("0")));
    assert(env_view(env@) =~= seq![("GIT_OPTIONAL_LOCKS"@, "0"@)]);
    env
}

/// `bytes` without one final line feed, then without one final carriage return.
pub open spec fn without_line_end(bytes: Seq<u8>) -> Seq<u8> {
    let a = if bytes.len() > 0 && bytes.last() == 10 {
        bytes.drop_last()
    } else {
        bytes
    };
    if a.len() > 0 && a.last() == 13 {
        a.drop_last()
    } else {
        a
    }
}

pub open spec fn outside_repository_error() -> Seq<char> {
    "execute este comando dentro de um repositório Git com diretório de trabalho."@
}

pub open spec fn shallow_error() -> Seq<char> {
    "esta operação exige histórico completo."@
}

/// The bytes `false\n` that `git rev-parse --is-shallow-repository` prints for a full
/// history.
pub open spec fn full_history_answer() -> Seq<u8> {
    seq![102u8, 97u8, 108u8, 115u8, 101u8, 10u8]
}

/// The path that a Git command prints, without its line ending.
pub fn output_path(bytes: Vec<u8>) -> (r: Vec<u8>)
    ensures
        r@ == without_line_end(bytes@),
{
    let mut bytes = bytes;
    if bytes.len() > 0 && bytes[bytes.len() - 1] == 10 {
        bytes.pop();
    }
    if bytes.len() > 0 && bytes[bytes.len() - 1] == 13 {
        bytes.pop();
    }
    bytes
}

impl Repository {
    /// The repository whose top level `git rev-parse --show-toplevel` printed, or the error
    /// when that command failed.
    pub fn discover(toplevel: Result<Vec<u8>, String>) -> (r: Result<Repository, String>)
        ensures
            match toplevel {
                Ok(bytes) => r matches Ok(repo) && repo.root@ == without_line_end(bytes@),
                Err(_) => r matches Err(e) && e@ == outside_repository_error(),
            },
    {
        match toplevel {
            Ok(bytes) => Ok(Repository { root: output_path(bytes) }),
            Err(_) => Err(String::from_str(
                "execute este comando dentro de um repositório Git com diretório de trabalho.",
            )),
        }
    }

    /// Requires a full history, given what `git rev-parse --is-shallow-repository` printed.
    pub fn ensure_full_history(&self, shallow: &[u8]) -> (r: Result<(), String>)
        ensures
            r is Ok <==> shallow@ == full_history_answer(),
            r matches Err(e) ==> e@ == shallow_error(),
    {
        if shallow.len() == 6 && shallow[0] == 102 && shallow[1] == 97 && shallow[2] == 108
            && shallow[3] == 115 && shallow[4] == 101 && shallow[5] == 10 {
            assert(shallow@ =~= full_history_answer());
            Ok(())
        } else {
            Err(String::from_str("esta operação exige histórico completo."))
        }
    }

    /// How to run Git with `args` in this repository: every read has no input, at most
    /// 120 seconds, at most 4 MiB of each output, and optional locks off.
    pub fn read_request(&self, args: Vec<String>) -> (r: Request)
        ensures
            git_request(r, self.root@, strings_view(args@), GIT_TIMEOUT_SECS, GIT_OUTPUT_LIMIT),
    {
        let dir = self.root.clone();
        assert(dir@ =~= self.root@);
        Request { dir, args, input: Vec::new(), timeout_secs: 120, output_limit: 4194304, env: git_env() }
    }

    /// Whether a range changes files, given what `git diff --name-only` printed for it.
    pub fn has_changes(&self, names: &[u8]) -> (r: bool)
        ensures
            r == (names@.len() > 0),
    {
        names.len() > 0
    }
}

pub open spec fn reference_error() -> Seq<char> {
    "referência de commit inválida."@
}

pub open spec fn commit_suffix() -> Seq<u8> {
    seq![94u8, 123u8, 99u8, 111u8, 109u8, 109u8, 105u8, 116u8, 125u8]
}

pub open spec fn unresolved_error(reference: Seq<u8>) -> Seq<char> {
    "a referência "@ + utf8_lossy(reference) + " não resolve para um commit local."@
}

pub open spec fn commit_id_error() -> Seq<char> {
    "identificador de commit inválido."@
}

/// The commit that `git rev-parse --verify` resolved for `reference`: its identifier,
/// trimmed, when Git printed one in UTF-8.
pub open spec fn resolution(reference: Seq<u8>, output: Result<Seq<u8>, Seq<char>>) -> Result<Seq<char>, Seq<char>> {
    match output {
        Err(_) => Err(unresolved_error(reference)),
        Ok(bytes) => if valid_utf8(bytes) {
            Ok(trim(decode_utf8(bytes)))
        } else {
            Err(commit_id_error())
        },
    }
}

impl Repository {
    /// The `rev-parse` argument that asks for the commit that `reference` names
    /// (`<reference>^{commit}`); a reference that is empty or starts with `-` is refused.
    pub fn commit_revision(&self, reference: &[u8]) -> (r: Result<Vec<u8>, String>)
        ensures
            reference@.len() == 0 || reference@[0] == 45 ==> (r matches Err(e) && e@ == reference_error()),
            !(reference@.len() == 0 || reference@[0] == 45) ==> (r matches Ok(a) && a@ == reference@ + commit_suffix()),
    {
        if reference.len() == 0 || reference[0] == 45 {
            return Err(String::from_str("referência de commit inválida."));
        }
        let mut a: Vec<u8> = Vec::new();
        let mut i: usize = 0;
        while i < reference.len()
            invariant
                i <= reference@.len(),
                a@ == reference@.take(i as int),
            decreases reference.len() - i,
        {
            a.push(reference[i]);
            assert(reference@.take(i + 1) == reference@.take(i as int).push(reference@[i as int]));
            i += 1;
        }
        assert(reference@.take(reference@.len() as int) == reference@);
        let suffix: [u8; 9] = [94, 123, 99, 111, 109, 109, 105, 116, 125];
        let ghost base = a@;
        let mut j: usize = 0;
        while j < 9
            invariant
                j <= 9,
                suffix@ == commit_suffix(),
                a@ == base + commit_suffix().take(j as int),
            decreases 9 - j,
        {
            a.push(suffix[j]);
            assert(commit_suffix().take(j + 1) == commit_suffix().take(j as int).push(commit_suffix()[j as int]));
            j += 1;
        }
        assert(commit_suffix().take(9) == commit_suffix());
        Ok(a)
    }

    /// The commit that `reference` names, from what `git rev-parse --verify` printed for
    /// the argument of `commit_revision` (or its failure).
    pub fn resolve_commit(&self, reference: &[u8], output: Result<Vec<u8>, String>) -> (r: Result<String, String>)
        ensures
            crate::message::text_result(r) == resolution(
                reference@,
                match output {
                    Ok(b) => Ok(b@),
                    Err(e) => Err(e@),
                },
            ),
    {
        match output {
            Err(_) => {
                let mut e = String::from_str("a referência ");
                e.append(decode_lossy(reference).as_str());
                e.append(" não resolve para um commit local.");
                Err(e)
            },
            Ok(bytes) => match utf8_text(bytes.as_slice()) {
                Some(text) => {
                    let t = trim_chars(&chars_of(text.as_str()));
                    assert(t@.subrange(0, t@.len() as int) == t@);
                    Ok(string_of(&t, 0, t.len()))
                },
                None => Err(String::from_str("identificador de commit inválido.")),
            },
        }
    }
}

/// What a Git command printed, or why it failed: its error output quoted after "Git: ".
pub open spec fn git_output(success: bool, stdout: Seq<u8>, stderr: Seq<u8>) -> Result<Seq<u8>, Seq<char>> {
    if success {
        Ok(stdout)
    } else {
        Err("Git: "@ + excerpt(utf8_lossy(stderr)))
    }
}

/// The bytes that a Git read gave, or its error.
pub open spec fn bytes_result(r: Result<Vec<u8>, String>) -> Result<Seq<u8>, Seq<char>> {
    match r {
        Ok(b) => Ok(b@),
        Err(e) => Err(e@),
    }
}

/// A finished command as plain values (success, output, error output), or why it could not
/// be run to its end.
pub open spec fn capture_view(r: Result<Outcome, String>) -> Result<(bool, Seq<u8>, Seq<u8>), Seq<char>> {
    match r {
        Ok(o) => Ok((o.success, o.stdout@, o.stderr@)),
        Err(e) => Err(e@),
    }
}

impl Repository {
    /// The output of a Git command run in this repository, or the error that its failure
    /// gives.
    pub fn read(&self, outcome: Outcome) -> (r: Result<Vec<u8>, String>)
        ensures
            bytes_result(r) == git_output(outcome.success, outcome.stdout@, outcome.stderr@),
    {
        if outcome.success {
            Ok(outcome.stdout)
        } else {
            let mut e = String::from_str("Git: ");
            e.append(diagnostic(&outcome.stderr).as_str());
            Err(e)
        }
    }
}

/// Whether a path's file name looks like secrets: an `.env` file (not a sample), an SSH
/// private key, a credentials file, or a key or certificate store. Letter case is ignored.
pub open spec fn sensitive(path: Seq<char>) -> bool {
    let name = file_name(path).map_values(|c: char| ascii_lower(c));
    let sample = ends_with(name, ".example"@) || ends_with(name, ".sample"@) || ends_with(name, ".template"@);
    ||| !sample && (name == ".env"@ || starts_with(name, ".env."@))
    ||| name == "id_rsa"@ || name == "id_ed25519"@ || name == "credentials.json"@
    ||| ends_with(name, ".pem"@) || ends_with(name, ".key"@) || ends_with(name, ".p12"@) || ends_with(name, ".pfx"@)
}

/// The part of `path` after its last `/`.
pub open spec fn file_name(path: Seq<char>) -> Seq<char>
    decreases path.len(),
{
    if path.len() == 0 {
        path
    } else if path.last() == '/' {
        Seq::empty()
    } else {
        file_name(path.drop_last()).push(path.last())
    }
}

fn file_name_chars(path: &[char]) -> (r: Vec<char>)
    ensures
        r@ == file_name(path@),
{
    let mut start: usize = path.len();
    while start > 0 && path[start - 1] != '/'
        invariant
            start <= path@.len(),
            forall|k: int| start <= k < path@.len() ==> path@[k] != '/',
        decreases start,
    {
        start -= 1;
    }
    proof {
        lemma_file_name(path@, start as int);
    }
    slice_of(path, start, path.len())
}

proof fn lemma_file_name(path: Seq<char>, start: int)
    requires
        0 <= start <= path.len(),
        forall|k: int| start <= k < path.len() ==> path[k] != '/',
        start == 0 || path[start - 1] == '/',
    ensures
        file_name(path) == path.subrange(start, path.len() as int),
    decreases path.len(),
{
    if path.len() > start {
        lemma_file_name(path.drop_last(), start);
        assert(path.drop_last().subrange(start, path.len() - 1).push(path.last()) =~= path.subrange(start, path.len() as int));
    } else if path.len() > 0 {
        assert(path.last() == '/');
    }
}

/// Whether a path's file name looks like secrets.
pub fn sensitive_path(path: &str) -> (r: bool)
    ensures
        r == sensitive(path@),
{
    let name = ascii_lowercase(&file_name_chars(&chars_of(path)));
    let sample = ends_with_chars(&name, &chars_of(".example")) || ends_with_chars(&name, &chars_of(".sample"))
        || ends_with_chars(&name, &chars_of(".template"));
    (!sample && (same_chars(&name, &chars_of(".env")) || starts_with_chars(&name, &chars_of(".env."))))
        || same_chars(&name, &chars_of("id_rsa")) || same_chars(&name, &chars_of("id_ed25519"))
        || same_chars(&name, &chars_of("credentials.json")) || ends_with_chars(&name, &chars_of(".pem"))
        || ends_with_chars(&name, &chars_of(".key")) || ends_with_chars(&name, &chars_of(".p12"))
        || ends_with_chars(&name, &chars_of(".pfx"))
}

/// The non-empty fields of `bytes` between the bytes `sep`, in order, with `current` the
/// field read so far.
pub open spec fn fields_from(bytes: Seq<u8>, sep: u8, current: Seq<u8>) -> Seq<Seq<u8>>
    decreases bytes.len(),
{
    if bytes.len() == 0 {
        if current.len() > 0 {
            seq![current]
        } else {
            Seq::empty()
        }
    } else if bytes[0] == sep {
        (if current.len() > 0 {
            seq![current]
        } else {
            Seq::<Seq<u8>>::empty()
        }) + fields_from(bytes.drop_first(), sep, Seq::empty())
    } else {
        fields_from(bytes.drop_first(), sep, current.push(bytes[0]))
    }
}

/// The non-empty NUL-terminated names that `git diff -z --name-only` prints.
pub open spec fn nul_fields(bytes: Seq<u8>) -> Seq<Seq<u8>> {
    fields_from(bytes, 0, Seq::empty())
}

/// The non-empty fields of `bytes` between NUL bytes.
pub fn split_nul_fields(bytes: &[u8]) -> (r: Vec<Vec<u8>>)
    ensures
        r@.map_values(|f: Vec<u8>| f@) == nul_fields(bytes@),
{
    split_fields(bytes, 0)
}

/// The non-empty fields of `bytes` between the bytes `sep`.
pub fn split_fields(bytes: &[u8], sep: u8) -> (r: Vec<Vec<u8>>)
    ensures
        r@.map_values(|f: Vec<u8>| f@) == fields_from(bytes@, sep, Seq::empty()),
{
    let mut done: Vec<Vec<u8>> = Vec::new();
    let mut current: Vec<u8> = Vec::new();
    let mut i: usize = 0;
    assert(bytes@.skip(0) == bytes@);
    while i < bytes.len()
        invariant
            i <= bytes@.len(),
            fields_from(bytes@, sep, Seq::empty()) == done@.map_values(|f: Vec<u8>| f@) + fields_from(bytes@.skip(i as int), sep, current@),
        decreases bytes.len() - i,
    {
        let ghost rest = bytes@.skip(i as int);
        assert(rest.drop_first() == bytes@.skip(i + 1));
        let ghost before = done@.map_values(|f: Vec<u8>| f@);
        if bytes[i] == sep {
            if current.len() > 0 {
                let field = current;
                done.push(field);
                assert(done@.map_values(|f: Vec<u8>| f@) =~= before.push(field@));
                assert(before + (seq![field@] + fields_from(rest.drop_first(), sep, Seq::empty())) =~= before.push(field@) + fields_from(rest.drop_first(), sep, Seq::empty()));
            } else {
                assert(Seq::<Seq<u8>>::empty() + fields_from(rest.drop_first(), sep, Seq::empty()) =~= fields_from(rest.drop_first(), sep, Seq::empty()));
            }
            current = Vec::new();
            assert(current@ =~= Seq::<u8>::empty());
        } else {
            current.push(bytes[i]);
        }
        i += 1;
    }
    assert(bytes@.skip(i as int) =~= Seq::<u8>::empty());
    if current.len() > 0 {
        let ghost before = done@.map_values(|f: Vec<u8>| f@);
        let field = current;
        done.push(field);
        assert(done@.map_values(|f: Vec<u8>| f@) =~= before + seq![field@]);
    } else {
        assert(done@.map_values(|f: Vec<u8>| f@) + Seq::<Seq<u8>>::empty() =~= done@.map_values(|f: Vec<u8>| f@));
    }
    done
}

pub open spec fn no_changes_error() -> Seq<char> {
    "não há alterações no intervalo selecionado."@
}

pub open spec fn name_not_utf8_error() -> Seq<char> {
    "há um nome de arquivo que não está em UTF-8."@
}

pub open spec fn name_control_error() -> Seq<char> {
    "há um nome de arquivo com caracteres de controle."@
}

pub open spec fn sensitive_error(name: Seq<char>) -> Seq<char> {
    "arquivo potencialmente sensível na seleção: "@ + name
        + ". Revise a seleção antes de enviar o diff ao Codex."@
}

pub open spec fn has_control(s: Seq<char>) -> bool {
    exists|i: int| 0 <= i < s.len() && is_control(#[trigger] s[i])
}

/// The first problem among the changed file names `names`, in order.
pub open spec fn names_problem(names: Seq<Seq<u8>>) -> Option<Seq<char>>
    decreases names.len(),
{
    if names.len() == 0 {
        None
    } else if !valid_utf8(names[0]) {
        Some(name_not_utf8_error())
    } else if has_control(decode_utf8(names[0])) {
        Some(name_control_error())
    } else if sensitive(decode_utf8(names[0])) {
        Some(sensitive_error(decode_utf8(names[0])))
    } else {
        names_problem(names.drop_first())
    }
}

/// The verdict on the files of a range, given what `git diff --name-only --no-renames -z`
/// printed: there must be some, each named in UTF-8 without control characters and none
/// looking like secrets.
pub open spec fn names_verdict(names: Seq<u8>) -> Option<Seq<char>> {
    if names.len() == 0 {
        Some(no_changes_error())
    } else {
        names_problem(nul_fields(names))
    }
}

fn has_control_char(s: &[char]) -> (r: bool)
    ensures
        r == has_control(s@),
{
    let mut i: usize = 0;
    while i < s.len()
        invariant
            i <= s@.len(),
            forall|k: int| 0 <= k < i ==> !is_control(#[trigger] s@[k]),
        decreases s.len() - i,
    {
        if is_control_char(s[i]) {
            return true;
        }
        i += 1;
    }
    false
}

/// Checks the files of a range before its diff may be sent to the AI.
pub fn check_diff_names(names: &[u8]) -> (r: Result<(), String>)
    ensures
        match r {
            Ok(()) => names_verdict(names@) is None,
            Err(e) => names_verdict(names@) == Some(e@),
        },
{
    if names.len() == 0 {
        return Err(String::from_str("não há alterações no intervalo selecionado."));
    }
    let fields = split_nul_fields(names);
    let ghost all = fields@.map_values(|f: Vec<u8>| f@);
    let mut k: usize = 0;
    assert(all.skip(0) == all);
    while k < fields.len()
        invariant
            k <= fields@.len(),
            all == fields@.map_values(|f: Vec<u8>| f@),
            all == nul_fields(names@),
            names_problem(all) == names_problem(all.skip(k as int)),
        decreases fields.len() - k,
    {
        let ghost rest = all.skip(k as int);
        assert(rest[0] == fields@[k as int]@);
        assert(rest.drop_first() == all.skip(k + 1));
        match utf8_text(fields[k].as_slice()) {
            None => {
                return Err(String::from_str("há um nome de arquivo que não está em UTF-8."));
            },
            Some(name) => {
                let chars = chars_of(name.as_str());
                if has_control_char(&chars) {
                    return Err(String::from_str("há um nome de arquivo com caracteres de controle."));
                }
                if sensitive_path(name.as_str()) {
                    let mut e = String::from_str("arquivo potencialmente sensível na seleção: ");
                    e.append(name.as_str());
                    e.append(". Revise a seleção antes de enviar o diff ao Codex.");
                    return Err(e);
                }
            },
        }
        k += 1;
    }
    assert(all.skip(k as int) =~= Seq::<Seq<u8>>::empty());
    Ok(())
}

/// Whether an entry of `git diff --numstat -z` output (fields between NUL bytes) starts at
/// position `i` with `-\t-\t`, the mark of a binary file.
pub open spec fn binary_entry_at(stats: Seq<u8>, i: int) -> bool {
    0 <= i && i + 4 <= stats.len() && (i == 0 || stats[i - 1] == 0) && stats[i] == 45
        && stats[i + 1] == 9 && stats[i + 2] == 45 && stats[i + 3] == 9
}

pub open spec fn has_binary_entry(stats: Seq<u8>) -> bool {
    exists|i: int| #[trigger] binary_entry_at(stats, i)
}

pub open spec fn binary_error() -> Seq<char> {
    "a seleção contém arquivo binário; esta versão exige um diff textual completo."@
}

/// Refuses a range whose `git diff --numstat -z` output marks a binary file.
pub fn check_diff_stats(stats: &[u8]) -> (r: Result<(), String>)
    ensures
        r is Ok <==> !has_binary_entry(stats@),
        r matches Err(e) ==> e@ == binary_error(),
{
    let mut i: usize = 0;
    while i < stats.len()
        invariant
            i <= stats@.len(),
            forall|j: int| 0 <= j < i ==> !#[trigger] binary_entry_at(stats@, j),
        decreases stats.len() - i,
    {
        if 4 <= stats.len() - i && (i == 0 || stats[i - 1] == 0) && stats[i] == 45 && stats[i + 1] == 9
            && stats[i + 2] == 45 && stats[i + 3] == 9 {
            assert(binary_entry_at(stats@, i as int));
            return Err(String::from_str(
                "a seleção contém arquivo binário; esta versão exige um diff textual completo.",
            ));
        }
        i += 1;
    }
    assert forall|j: int| !#[trigger] binary_entry_at(stats@, j) by {
        if 0 <= j < i {
        }
    }
    Ok(())
}

/// Whether some line of `s` starts with `pat`.
pub open spec fn some_line_begins_with(s: Seq<char>, pat: Seq<char>) -> bool {
    exists|i: int| 0 <= i < s.len() && (i == 0 || s[i - 1] == '\n') && #[trigger] occurs_at(s, pat, i)
}

pub fn some_line_begins_with_chars(s: &[char], pat: &[char]) -> (r: bool)
    ensures
        r == some_line_begins_with(s@, pat@),
{
    let mut i: usize = 0;
    while i < s.len()
        invariant
            i <= s@.len(),
            forall|j: int| 0 <= j < i ==> !((j == 0 || s@[j - 1] == '\n') && #[trigger] occurs_at(s@, pat@, j)),
        decreases s.len() - i,
    {
        if (i == 0 || s[i - 1] == '\n') && occurs_at_chars(s, pat, i) {
            return true;
        }
        i += 1;
    }
    false
}

pub open spec fn diff_capture_error(e: Seq<char>) -> Seq<char> {
    "não foi possível obter o diff completo (limite de 128 KiB): "@ + e
}

pub open spec fn diff_failed_error(stderr: Seq<u8>) -> Seq<char> {
    "não foi possível obter o diff: "@ + excerpt(utf8_lossy(stderr))
}

pub open spec fn diff_not_utf8_error() -> Seq<char> {
    "o diff contém dados que não estão em UTF-8."@
}

pub open spec fn submodule_error() -> Seq<char> {
    "esta versão não gera mensagens para alterações em submódulos."@
}

pub open spec fn overflow_error() -> Seq<char> {
    "a saída do processo excedeu o limite permitido."@
}

/// The verdict on the captured diff of a range: the diff when Git produced it within the
/// limits (at most 128 KiB), in UTF-8 and without submodule changes.
pub open spec fn diff_verdict(captured: Result<(bool, Seq<u8>, Seq<u8>), Seq<char>>) -> Result<Seq<char>, Seq<char>> {
    match captured {
        Err(e) => Err(diff_capture_error(e)),
        Ok((success, stdout, stderr)) => if stdout.len() > MAX_DIFF_BYTES {
            Err(diff_capture_error(overflow_error()))
        } else if !success {
            Err(diff_failed_error(stderr))
        } else if !valid_utf8(stdout) {
            Err(diff_not_utf8_error())
        } else if some_line_begins_with(decode_utf8(stdout), "+Subproject commit "@)
            || some_line_begins_with(decode_utf8(stdout), "-Subproject commit "@) {
            Err(submodule_error())
        } else {
            Ok(decode_utf8(stdout))
        },
    }
}

/// Reads the diff of a range from its capture (or the capture's failure).
pub fn check_diff_text(captured: Result<Outcome, String>) -> (r: Result<String, String>)
    ensures
        crate::message::text_result(r) == diff_verdict(capture_view(captured)),
{
    let outcome = match captured {
        Err(e) => {
            let mut m = String::from_str("não foi possível obter o diff completo (limite de 128 KiB): ");
            m.append(e.as_str());
            return Err(m);
        },
        Ok(o) => o,
    };
    if outcome.stdout.len() > MAX_DIFF_BYTES {
        let mut m = String::from_str("não foi possível obter o diff completo (limite de 128 KiB): ");
        m.append("a saída do processo excedeu o limite permitido.");
        return Err(m);
    }
    if !outcome.success {
        let mut m = String::from_str("não foi possível obter o diff: ");
        m.append(diagnostic(&outcome.stderr).as_str());
        return Err(m);
    }
    let diff = match utf8_text(outcome.stdout.as_slice()) {
        None => return Err(String::from_str("o diff contém dados que não estão em UTF-8.")),
        Some(d) => d,
    };
    let chars = chars_of(diff.as_str());
    if some_line_begins_with_chars(&chars, &chars_of("+Subproject commit "))
        || some_line_begins_with_chars(&chars, &chars_of("-Subproject commit ")) {
        return Err(String::from_str("esta versão não gera mensagens para alterações em submódulos."));
    }
    Ok(diff)
}

/// The arguments of a `git diff` between `base` and `head` with the options `flags`:
/// submodules are never ignored and paths are never relative.
pub open spec fn diff_argument_list(base: Seq<char>, head: Seq<char>, flags: Seq<Seq<char>>) -> Seq<Seq<char>> {
    seq!["diff"@, "--ignore-submodules=none"@, "--no-relative"@] + flags + seq![base, head, "--"@]
}

pub open spec fn strings_view(v: Seq<String>) -> Seq<Seq<char>> {
    v.map_values(|s: String| s@)
}

pub(crate) fn push_all(out: &mut Vec<String>, items: &[&str])
    ensures
        strings_view(final(out)@) == strings_view(old(out)@) + items@.map_values(|f: &str| f@),
{
    let ghost start = strings_view(out@);
    let mut i: usize = 0;
    while i < items.len()
        invariant
            i <= items@.len(),
            strings_view(out@) == start + items@.map_values(|f: &str| f@).take(i as int),
        decreases items.len() - i,
    {
        let ghost before = strings_view(out@);
        out.push(String::from_str(items[i]));
        assert(items@.map_values(|f: &str| f@).take(i + 1) =~= items@.map_values(|f: &str| f@).take(i as int).push(items@[i as int]@));
        assert(strings_view(out@) =~= before.push(items@[i as int]@));
        i += 1;
    }
    assert(items@.map_values(|f: &str| f@).take(items@.len() as int) =~= items@.map_values(|f: &str| f@));
}

/// The arguments of a `git diff` between `base` and `head` with the options `flags`.
pub fn diff_arguments(base: &str, head: &str, flags: &[&str]) -> (r: Vec<String>)
    ensures
        strings_view(r@) == diff_argument_list(base@, head@, flags@.map_values(|f: &str| f@)),
{
    let mut args: Vec<String> = Vec::new();
    push_all(&mut args, &["diff", "--ignore-submodules=none", "--no-relative"]);
    push_all(&mut args, flags);
    push_all(&mut args, &[base, head, "--"]);
    args
}

/// The options of the read that lists a range's files.
pub open spec fn names_flags() -> Seq<Seq<char>> {
    seq!["--name-only"@, "--no-renames"@, "-z"@]
}

/// The options of the read that counts a range's changed lines per file.
pub open spec fn stats_flags() -> Seq<Seq<char>> {
    seq!["--numstat"@, "--no-renames"@, "-z"@, "--no-ext-diff"@, "--no-textconv"@]
}

/// The options of the diff that may go to the AI: no external diff or text conversion,
/// no color, no rename detection, `a/` and `b/` prefixes, short submodule lines, three
/// lines of context, full object names, and a fixed algorithm.
pub open spec fn diff_flags() -> Seq<Seq<char>> {
    seq![
        "--no-ext-diff"@,
        "--no-textconv"@,
        "--no-color"@,
        "--no-renames"@,
        "--src-prefix=a/"@,
        "--dst-prefix=b/"@,
        "--submodule=short"@,
        "--unified=3"@,
        "--full-index"@,
        "--diff-algorithm=myers"@,
        "--no-indent-heuristic"@,
        "--inter-hunk-context=0"@,
    ]
}

impl Repository {
    /// The three Git reads that decide whether the diff of the range from `base` to `head`
    /// may go to the AI: the file names, the line counts, and the diff itself, which may
    /// take at most 30 seconds and 128 KiB.
    pub fn range_reads(&self, base: &str, head: &str) -> (r: (Request, Request, Request))
        ensures
            git_request(r.0, self.root@, diff_argument_list(base@, head@, names_flags()), GIT_TIMEOUT_SECS, GIT_OUTPUT_LIMIT),
            git_request(r.1, self.root@, diff_argument_list(base@, head@, stats_flags()), GIT_TIMEOUT_SECS, GIT_OUTPUT_LIMIT),
            git_request(r.2, self.root@, diff_argument_list(base@, head@, diff_flags()), DIFF_TIMEOUT_SECS, MAX_DIFF_BYTES),
    {
        let flags: [&str; 3] = ["--name-only", "--no-renames", "-z"];
        assert(flags@.map_values(|f: &str| f@) =~= names_flags());
        let names = self.read_request(diff_arguments(base, head, &flags));
        let flags: [&str; 5] = ["--numstat", "--no-renames", "-z", "--no-ext-diff", "--no-textconv"];
        assert(flags@.map_values(|f: &str| f@) =~= stats_flags());
        let stats = self.read_request(diff_arguments(base, head, &flags));
        let flags: [&str; 12] = [
            "--no-ext-diff",
            "--no-textconv",
            "--no-color",
            "--no-renames",
            "--src-prefix=a/",
            "--dst-prefix=b/",
            "--submodule=short",
            "--unified=3",
            "--full-index",
            "--diff-algorithm=myers",
            "--no-indent-heuristic",
            "--inter-hunk-context=0",
        ];
        assert(flags@.map_values(|f: &str| f@) =~= diff_flags());
        let mut diff = self.read_request(diff_arguments(base, head, &flags));
        diff.timeout_secs = 30;
        diff.output_limit = 131072;
        (names, stats, diff)
    }
}

/// The verdict on a range whose diff would go to the AI, from Git's list of its files
/// (`--name-only --no-renames -z`), their line counts (`--numstat -z`) and the captured
/// diff: each read's own error first, then the checks in that order.
pub open spec fn range_diff(
    names: Result<Seq<u8>, Seq<char>>,
    stats: Result<Seq<u8>, Seq<char>>,
    captured: Result<(bool, Seq<u8>, Seq<u8>), Seq<char>>,
) -> Result<Seq<char>, Seq<char>> {
    match names {
        Err(e) => Err(e),
        Ok(n) => match names_verdict(n) {
            Some(e) => Err(e),
            None => match stats {
                Err(e) => Err(e),
                Ok(s) => if has_binary_entry(s) {
                    Err(binary_error())
                } else {
                    diff_verdict(captured)
                },
            },
        },
    }
}

impl Repository {
    /// The textual diff of a range that may be sent to the AI, from the three reads that
    /// Git answered for it.
    pub fn diff_between(
        &self,
        names: Result<Vec<u8>, String>,
        stats: Result<Vec<u8>, String>,
        captured: Result<Outcome, String>,
    ) -> (r: Result<String, String>)
        ensures
            crate::message::text_result(r) == range_diff(bytes_result(names), bytes_result(stats), capture_view(captured)),
            r matches Ok(d) ==> encode_utf8(d@).len() <= MAX_DIFF_BYTES,
            r matches Ok(d) ==> safe_for_ai(bytes_result(names), bytes_result(stats), capture_view(captured), d@),
    {
        proof {
            if let Ok(d) = range_diff(bytes_result(names), bytes_result(stats), capture_view(captured)) {
                lemma_only_safe_diffs_reach_ai(bytes_result(names), bytes_result(stats), capture_view(captured), d);
            }
        }
        proof {
            match capture_view(captured) {
                Ok((_, out, _)) => if out.len() <= MAX_DIFF_BYTES && valid_utf8(out) {
                    vstd::utf8::decode_utf8_encode_utf8(out);
                },
                Err(_) => {},
            }
        }
        let names = names?;
        check_diff_names(names.as_slice())?;
        let stats = stats?;
        check_diff_stats(stats.as_slice())?;
        check_diff_text(captured)
    }
}

/// The bytes of `text` and a line feed, as a command prints one line.
pub open spec fn line_bytes(text: Seq<char>) -> Seq<u8> {
    vstd::utf8::encode_utf8(text + "\n"@)
}

/// Whether a command printed exactly the line `text`.
pub fn prints_line(bytes: &[u8], text: &str) -> (r: bool)
    ensures
        r == (bytes@ == line_bytes(text@)),
{
    let mut line = String::from_str(text);
    line.append("\n");
    let expected = line.as_str().as_bytes_vec();
    assert(expected@ == line_bytes(text@));
    if expected.len() != bytes.len() {
        assert(expected@.len() != bytes@.len());
        return false;
    }
    let mut i: usize = 0;
    while i < bytes.len()
        invariant
            i <= bytes@.len(),
            expected@.len() == bytes@.len(),
            expected@ == line_bytes(text@),
            forall|k: int| 0 <= k < i ==> bytes@[k] == expected@[k],
        decreases bytes.len() - i,
    {
        if bytes[i] != expected[i] {
            return false;
        }
        i += 1;
    }
    assert(bytes@ =~= expected@);
    true
}

/// With no problem among them, every file name is UTF-8, free of control characters, and
/// not a name that looks like secrets.
proof fn lemma_names_clean(names: Seq<Seq<u8>>)
    requires
        names_problem(names) is None,
    ensures
        forall|i: int| 0 <= i < names.len() ==> {
            &&& valid_utf8(#[trigger] names[i])
            &&& !has_control(decode_utf8(names[i]))
            &&& !sensitive(decode_utf8(names[i]))
        },
    decreases names.len(),
{
    if names.len() > 0 {
        lemma_names_clean(names.drop_first());
        assert forall|i: int| 0 < i < names.len() implies names[i] == names.drop_first()[i - 1] by {}
    }
}

/// Whether a diff is safe for the AI, given the three reads of its range: the range
/// changes files, each file name is UTF-8 without control characters and does not look
/// like secrets, no file is binary, and the diff is what Git printed in full and with
/// success, valid UTF-8 of at most 128 KiB, with no line that adds or removes a submodule
/// commit.
pub open spec fn safe_for_ai(
    names: Result<Seq<u8>, Seq<char>>,
    stats: Result<Seq<u8>, Seq<char>>,
    captured: Result<(bool, Seq<u8>, Seq<u8>), Seq<char>>,
    diff: Seq<char>,
) -> bool {
    &&& names matches Ok(n) && n.len() > 0 && forall|i: int| 0 <= i < nul_fields(n).len() ==> {
        &&& valid_utf8(#[trigger] nul_fields(n)[i])
        &&& !has_control(decode_utf8(nul_fields(n)[i]))
        &&& !sensitive(decode_utf8(nul_fields(n)[i]))
    }
    &&& stats matches Ok(s) && !has_binary_entry(s)
    &&& captured matches Ok((success, out, _)) && success && out.len() <= MAX_DIFF_BYTES && valid_utf8(out) && diff
        == decode_utf8(out) && encode_utf8(diff) == out
    &&& !some_line_begins_with(diff, "+Subproject commit "@)
    &&& !some_line_begins_with(diff, "-Subproject commit "@)
}

/// Only a safe diff reaches the AI (see `safe_for_ai`): a sensitive, non-UTF-8,
/// control-character or binary file, a diff over 128 KiB, a failed or non-UTF-8 diff, or
/// a submodule change gives an error.
pub proof fn lemma_only_safe_diffs_reach_ai(
    names: Result<Seq<u8>, Seq<char>>,
    stats: Result<Seq<u8>, Seq<char>>,
    captured: Result<(bool, Seq<u8>, Seq<u8>), Seq<char>>,
    diff: Seq<char>,
)
    requires
        range_diff(names, stats, captured) == Ok::<Seq<char>, Seq<char>>(diff),
    ensures
        safe_for_ai(names, stats, captured, diff),
{
    if let Ok(n) = names {
        lemma_names_clean(nul_fields(n));
    }
    if let Ok((_, out, _)) = captured {
        if valid_utf8(out) {
            vstd::utf8::decode_utf8_encode_utf8(out);
        }
    }
}

} // verus!
