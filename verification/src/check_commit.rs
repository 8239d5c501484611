//! Checking the messages of commits: one commit object, or every commit of a range.
use vstd::prelude::*;
use vstd::string::*;
use vstd::utf8::{decode_utf8, valid_utf8};
use crate::conventional::{calls_for_release, conventional_commit, parse_conventional, release_impact};
use crate::git::bytes_result;
use crate::message::{text_result, validate, validation};
use crate::text::{chars_of, find, find_chars, lemma_find_from_bounds, slice_of, string_of, utf8_text};
use crate::version::{decimal, push_decimal};

verus! {

pub open spec fn no_message_error() -> Seq<char> {
    "objeto de commit sem mensagem."@
}

pub open spec fn message_not_utf8_error() -> Seq<char> {
    "a mensagem precisa estar em UTF-8."@
}

/// The first position from `i` on where two line feeds follow each other.
pub open spec fn blank_line_from(bytes: Seq<u8>, i: int) -> Option<int>
    decreases bytes.len() - i,
{
    if i < 0 || i + 1 >= bytes.len() {
        None
    } else if bytes[i] == 10 && bytes[i + 1] == 10 {
        Some(i)
    } else {
        blank_line_from(bytes, i + 1)
    }
}

/// The message of a commit object (`git cat-file commit`): what follows the first blank
/// line, in UTF-8.
pub open spec fn commit_message(object: Seq<u8>) -> Result<Seq<char>, Seq<char>> {
    match blank_line_from(object, 0) {
        None => Err(no_message_error()),
        Some(i) => if valid_utf8(object.skip(i + 2)) {
            Ok(decode_utf8(object.skip(i + 2)))
        } else {
            Err(message_not_utf8_error())
        },
    }
}

/// The verdict on a commit, from its object (or the error of reading it): its message
/// must follow the profile, and the verdict tells whether it releases.
pub open spec fn commit_verdict(object: Result<Seq<u8>, Seq<char>>) -> Result<bool, Seq<char>> {
    match object {
        Err(e) => Err(e),
        Ok(bytes) => match commit_message(bytes) {
            Err(e) => Err(e),
            Ok(text) => match validation(text) {
                Err(e) => Err(e),
                Ok(m) => match conventional_commit(m) {
                    Some((kind, _, breaking, _)) => Ok(calls_for_release(kind, breaking)),
                    None => Err(Seq::empty()),
                },
            },
        },
    }
}

fn blank_line(bytes: &[u8]) -> (r: Option<usize>)
    ensures
        match r {
            Some(i) => blank_line_from(bytes@, 0) == Some(i as int) && i + 2 <= bytes@.len(),
            None => blank_line_from(bytes@, 0) is None,
        },
{
    let mut i: usize = 0;
    while bytes.len() > 1 && i < bytes.len() - 1
        invariant
            i <= bytes@.len(),
            blank_line_from(bytes@, 0) == blank_line_from(bytes@, i as int),
        decreases bytes.len() - i,
    {
        if bytes[i] == 10 && bytes[i + 1] == 10 {
            return Some(i);
        }
        i += 1;
    }
    None
}

/// Checks the message of a commit from its object; tells whether the commit releases.
pub fn validate_commit(object: Result<Vec<u8>, String>) -> (r: Result<bool, String>)
    ensures
        match r {
            Ok(b) => commit_verdict(bytes_result(object)) == Ok::<bool, Seq<char>>(b),
            Err(e) => commit_verdict(bytes_result(object)) == Err::<bool, Seq<char>>(e@),
        },
{
    let bytes = object?;
    let start = match blank_line(bytes.as_slice()) {
        None => return Err(String::from_str("objeto de commit sem mensagem.")),
        Some(i) => i + 2,
    };
    let mut rest: Vec<u8> = Vec::new();
    let mut k: usize = start;
    while k < bytes.len()
        invariant
            start <= k <= bytes@.len(),
            rest@ == bytes@.subrange(start as int, k as int),
        decreases bytes.len() - k,
    {
        rest.push(bytes[k]);
        assert(bytes@.subrange(start as int, k + 1) == bytes@.subrange(start as int, k as int).push(bytes@[k as int]));
        k += 1;
    }
    assert(rest@ == bytes@.skip(start as int));
    let text = match utf8_text(rest.as_slice()) {
        None => return Err(String::from_str("a mensagem precisa estar em UTF-8.")),
        Some(t) => t,
    };
    let message = validate(text.as_str())?;
    match parse_conventional(message.as_str()) {
        Some(commit) => Ok(release_impact(&commit)),
        None => {
            assert(false);
            Err(String::new())
        },
    }
}

/// The lines of `s` (`str::lines`): split at line feeds, a carriage return before one
/// dropped, and no empty line after a final line feed.
pub open spec fn lines_of(s: Seq<char>) -> Seq<Seq<char>>
    decreases s.len(),
{
    if s.len() == 0 {
        Seq::empty()
    } else {
        match find(s, "\n"@) {
            None => seq![s],
            Some(i) => {
                proof {
                    reveal_strlit("\n");
                    lemma_find_from_bounds(s, "\n"@, 0);
                }
                let line = if i > 0 && s[i - 1] == '\r' {
                    s.take(i - 1)
                } else {
                    s.take(i)
                };
                seq![line] + lines_of(s.skip(i + 1))
            },
        }
    }
}

pub open spec fn ids_error() -> Seq<char> {
    "lista de commits inválida."@
}

/// The commits that `git rev-list` printed, one per line, which must be UTF-8.
pub open spec fn listed_commits(ids: Seq<u8>) -> Result<Seq<Seq<char>>, Seq<char>> {
    if valid_utf8(ids) {
        Ok(lines_of(decode_utf8(ids)))
    } else {
        Err(ids_error())
    }
}

pub(crate) fn lines_chars(s: &[char]) -> (r: Vec<String>)
    ensures
        r@.map_values(|l: String| l@) == lines_of(s@),
    decreases s@.len(),
{
    proof {
        reveal_strlit("\n");
    }
    if s.len() == 0 {
        let v: Vec<String> = Vec::new();
        assert(v@.map_values(|l: String| l@) =~= Seq::<Seq<char>>::empty());
        return v;
    }
    match find_chars(s, &chars_of("\n")) {
        None => {
            let mut v: Vec<String> = Vec::new();
            assert(s@.subrange(0, s@.len() as int) == s@);
            v.push(string_of(s, 0, s.len()));
            assert(v@.map_values(|l: String| l@) =~= seq![s@]);
            v
        },
        Some(i) => {
            assert(i + 1 <= s@.len() && s@.len() == s.len());
            let end = if i > 0 && s[i - 1] == '\r' {
                i - 1
            } else {
                i
            };
            let line = string_of(s, 0, end);
            let rest = slice_of(s, i + 1, s.len());
            assert(rest@ == s@.skip(i + 1));
            let more = lines_chars(&rest);
            let mut v: Vec<String> = Vec::new();
            v.push(line);
            let mut k: usize = 0;
            while k < more.len()
                invariant
                    k <= more@.len(),
                    v@.map_values(|l: String| l@) == seq![line@] + more@.map_values(|l: String| l@).take(k as int),
                decreases more.len() - k,
            {
                let ghost before = v@.map_values(|l: String| l@);
                v.push(more[k].clone());
                assert(more@.map_values(|l: String| l@).take(k + 1) =~= more@.map_values(|l: String| l@).take(k as int).push(more@[k as int]@));
                assert(v@.map_values(|l: String| l@) =~= before.push(more@[k as int]@));
                k += 1;
            }
            assert(more@.map_values(|l: String| l@).take(more@.len() as int) =~= more@.map_values(|l: String| l@));
            assert(line@ == (if i > 0 && s@[i - 1] == '\r' { s@.take(i - 1) } else { s@.take(i as int) }));
            v
        },
    }
}

/// The commits that `git rev-list` printed, in its order.
pub fn commit_ids(ids: &[u8]) -> (r: Result<Vec<String>, String>)
    ensures
        match r {
            Ok(v) => listed_commits(ids@) == Ok::<Seq<Seq<char>>, Seq<char>>(v@.map_values(|l: String| l@)),
            Err(e) => listed_commits(ids@) == Err::<Seq<Seq<char>>, Seq<char>>(e@),
        },
{
    match utf8_text(ids) {
        None => Err(String::from_str("lista de commits inválida.")),
        Some(t) => Ok(lines_chars(&chars_of(t.as_str()))),
    }
}

/// The range `from..to` as Git writes it.
pub open spec fn range_of(from: Seq<char>, to: Seq<char>) -> Seq<char> {
    from + ".."@ + to
}

pub fn commit_range(from: &str, to: &str) -> (r: String)
    ensures
        r@ == range_of(from@, to@),
{
    let mut r = String::from_str(from);
    r.append("..");
    r.append(to);
    r
}

pub open spec fn verdict_view(v: Result<bool, String>) -> Result<bool, Seq<char>> {
    match v {
        Ok(b) => Ok(b),
        Err(e) => Err(e@),
    }
}

/// The lines that report the commits of `ids` whose verdict failed: the commit, `: ` and
/// the error.
pub open spec fn failure_lines(ids: Seq<Seq<char>>, verdicts: Seq<Result<bool, Seq<char>>>) -> Seq<Seq<char>>
    decreases ids.len(),
{
    if ids.len() == 0 || verdicts.len() == 0 {
        Seq::empty()
    } else {
        let rest = failure_lines(ids.drop_first(), verdicts.drop_first());
        match verdicts[0] {
            Err(e) => seq![ids[0] + ": "@ + e] + rest,
            Ok(_) => rest,
        }
    }
}

/// The lines joined by line feeds.
pub open spec fn joined(lines: Seq<Seq<char>>) -> Seq<char>
    decreases lines.len(),
{
    if lines.len() == 0 {
        Seq::empty()
    } else if lines.len() == 1 {
        lines[0]
    } else {
        joined(lines.drop_last()) + "\n"@ + lines.last()
    }
}

pub open spec fn any_release(verdicts: Seq<Result<bool, Seq<char>>>) -> bool {
    exists|i: int| 0 <= i < verdicts.len() && #[trigger] verdicts[i] == Ok::<bool, Seq<char>>(true)
}

proof fn lemma_any_release_push(v: Seq<Result<bool, Seq<char>>>, x: Result<bool, Seq<char>>)
    ensures
        any_release(v.push(x)) == (any_release(v) || x == Ok::<bool, Seq<char>>(true)),
{
    let w = v.push(x);
    if any_release(v) {
        let j = choose|j: int| 0 <= j < v.len() && #[trigger] v[j] == Ok::<bool, Seq<char>>(true);
        assert(w[j] == v[j]);
    }
    if x == Ok::<bool, Seq<char>>(true) {
        assert(w[v.len() as int] == x);
    }
    if any_release(w) {
        let j = choose|j: int| 0 <= j < w.len() && #[trigger] w[j] == Ok::<bool, Seq<char>>(true);
        if j < v.len() {
            assert(v[j] == w[j]);
        }
    }
}

/// The outcome of checking a range `from..to` whose commits `ids` got `verdicts`: the
/// failures counted and listed, or whether some commit releases and the line that reports
/// the valid range.
pub open spec fn range_verdict(
    from: Seq<char>,
    to: Seq<char>,
    ids: Seq<Seq<char>>,
    verdicts: Seq<Result<bool, Seq<char>>>,
) -> Result<(bool, Seq<char>), Seq<char>> {
    let failures = failure_lines(ids, verdicts);
    if failures.len() > 0 {
        Err(decimal(failures.len()) + " de "@ + decimal(ids.len()) + " commit(s) inválido(s):\n"@ + joined(failures))
    } else {
        Ok((any_release(verdicts), decimal(ids.len()) + " commit(s) válido(s) no intervalo "@ + range_of(from, to) + "."@))
    }
}

/// The number of invalid messages among the verdicts.
pub open spec fn invalid_count(verdicts: Seq<Result<bool, Seq<char>>>) -> nat
    decreases verdicts.len(),
{
    if verdicts.len() == 0 {
        0
    } else {
        (if verdicts[0] is Err { 1nat } else { 0nat }) + invalid_count(verdicts.drop_first())
    }
}

proof fn lemma_failure_count(ids: Seq<Seq<char>>, verdicts: Seq<Result<bool, Seq<char>>>)
    requires
        ids.len() == verdicts.len(),
    ensures
        failure_lines(ids, verdicts).len() == invalid_count(verdicts),
        invalid_count(verdicts) <= verdicts.len(),
    decreases ids.len(),
{
    if ids.len() > 0 {
        lemma_failure_count(ids.drop_first(), verdicts.drop_first());
    }
}

/// The count of a range check is right: of the `n` commits of the range, the report of
/// "k de n" names `k` the number of invalid messages, one line for each, and `k` is at most
/// `n`; the range passes exactly when no message is invalid.
pub proof fn lemma_range_counts_invalid(
    from: Seq<char>,
    to: Seq<char>,
    ids: Seq<Seq<char>>,
    verdicts: Seq<Result<bool, Seq<char>>>,
)
    requires
        ids.len() == verdicts.len(),
    ensures
        failure_lines(ids, verdicts).len() == invalid_count(verdicts),
        invalid_count(verdicts) <= ids.len(),
        range_verdict(from, to, ids, verdicts) is Ok <==> invalid_count(verdicts) == 0,
        invalid_count(verdicts) > 0 ==> range_verdict(from, to, ids, verdicts) == Err::<(bool, Seq<char>), Seq<char>>(
            decimal(invalid_count(verdicts)) + " de "@ + decimal(ids.len()) + " commit(s) inválido(s):\n"@ + joined(
                failure_lines(ids, verdicts),
            ),
        ),
{
    lemma_failure_count(ids, verdicts);
}

proof fn lemma_failure_lines_push(ids: Seq<Seq<char>>, verdicts: Seq<Result<bool, Seq<char>>>, id: Seq<char>, v: Result<bool, Seq<char>>)
    requires
        ids.len() == verdicts.len(),
    ensures
        failure_lines(ids.push(id), verdicts.push(v)) == failure_lines(ids, verdicts) + match v {
            Err(e) => seq![id + ": "@ + e],
            Ok(_) => Seq::<Seq<char>>::empty(),
        },
    decreases ids.len(),
{
    if ids.len() == 0 {
        assert(ids.push(id).drop_first() =~= Seq::<Seq<char>>::empty());
        assert(verdicts.push(v).drop_first() =~= Seq::<Result<bool, Seq<char>>>::empty());
        assert(failure_lines(Seq::<Seq<char>>::empty(), Seq::<Result<bool, Seq<char>>>::empty()) =~= Seq::<Seq<char>>::empty());
        assert(ids.push(id)[0] == id);
        assert(verdicts.push(v)[0] == v);
        match v {
            Err(e) => assert(seq![id + ": "@ + e] + Seq::<Seq<char>>::empty() =~= seq![id + ": "@ + e]),
            Ok(_) => {},
        }
        assert(failure_lines(ids, verdicts) =~= Seq::<Seq<char>>::empty());
    } else {
        lemma_failure_lines_push(ids.drop_first(), verdicts.drop_first(), id, v);
        assert(ids.push(id).drop_first() =~= ids.drop_first().push(id));
        assert(verdicts.push(v).drop_first() =~= verdicts.drop_first().push(v));
        assert(ids.push(id)[0] == ids[0]);
        assert(verdicts.push(v)[0] == verdicts[0]);
        match verdicts[0] {
            Err(e) => {
                let a = seq![ids[0] + ": "@ + e];
                let tail = failure_lines(ids.drop_first(), verdicts.drop_first());
                let extra = match v {
                    Err(e2) => seq![id + ": "@ + e2],
                    Ok(_) => Seq::<Seq<char>>::empty(),
                };
                assert(a + (tail + extra) =~= (a + tail) + extra);
            },
            Ok(_) => {},
        }
    }
}

fn push_number(s: &mut String, n: u64)
    ensures
        final(s)@ == old(s)@ + decimal(n as nat),
{
    let mut digits: Vec<char> = Vec::new();
    push_decimal(&mut digits, n);
    assert(digits@ =~= decimal(n as nat));
    assert(digits@.subrange(0, digits@.len() as int) == digits@);
    s.append(string_of(&digits, 0, digits.len()).as_str());
}

/// Reports the check of the range `from..to` (see `range_verdict`), given the commits
/// that it holds and the verdict on each.
pub fn validate_range(from: &str, to: &str, ids: &Vec<String>, verdicts: &Vec<Result<bool, String>>) -> (r: Result<
    (bool, String),
    String,
>)
    requires
        ids@.len() == verdicts@.len(),
    ensures
        match r {
            Ok((b, line)) => range_verdict(from@, to@, ids@.map_values(|l: String| l@), verdicts@.map_values(|v: Result<bool, String>| verdict_view(v)))
                == Ok::<(bool, Seq<char>), Seq<char>>((b, line@)),
            Err(e) => range_verdict(from@, to@, ids@.map_values(|l: String| l@), verdicts@.map_values(|v: Result<bool, String>| verdict_view(v)))
                == Err::<(bool, Seq<char>), Seq<char>>(e@),
        },
{
    let ghost iv = ids@.map_values(|l: String| l@);
    let ghost vv = verdicts@.map_values(|v: Result<bool, String>| verdict_view(v));
    let mut failures: Vec<String> = Vec::new();
    let mut report = String::new();
    let mut releases = false;
    let mut i: usize = 0;
    assert(iv.take(0) =~= Seq::<Seq<char>>::empty());
    assert(vv.take(0) =~= Seq::<Result<bool, Seq<char>>>::empty());
    while i < ids.len()
        invariant
            i <= ids@.len(),
            ids@.len() == verdicts@.len(),
            iv == ids@.map_values(|l: String| l@),
            vv == verdicts@.map_values(|v: Result<bool, String>| verdict_view(v)),
            failures@.map_values(|l: String| l@) == failure_lines(iv.take(i as int), vv.take(i as int)),
            failures@.len() > 0 ==> report@ == joined(failures@.map_values(|l: String| l@)),
            releases == any_release(vv.take(i as int)),
        decreases ids.len() - i,
    {
        proof {
            lemma_failure_lines_push(iv.take(i as int), vv.take(i as int), iv[i as int], vv[i as int]);
            assert(iv.take(i + 1) =~= iv.take(i as int).push(iv[i as int]));
            assert(vv.take(i + 1) =~= vv.take(i as int).push(vv[i as int]));
            lemma_any_release_push(vv.take(i as int), vv[i as int]);
        }
        match &verdicts[i] {
            Ok(b) => {
                if *b {
                    releases = true;
                    assert(vv.take(i + 1)[i as int] == Ok::<bool, Seq<char>>(true));
                }
            },
            Err(e) => {
                let ghost before = failures@.map_values(|l: String| l@);
                let mut line = ids[i].clone();
                line.append(": ");
                line.append(e.as_str());
                if failures.len() > 0 {
                    report.append("\n");
                    report.append(line.as_str());
                } else {
                    report = line.clone();
                }
                failures.push(line);
                assert(failures@.map_values(|l: String| l@) =~= before.push(line@));
                proof {
                    let f = failures@.map_values(|l: String| l@);
                    assert(f.drop_last() =~= before);
                    if before.len() == 0 {
                        assert(f.len() == 1);
                    }
                }
            },
        }
        i += 1;
    }
    assert(iv.take(i as int) =~= iv);
    assert(vv.take(i as int) =~= vv);
    let count = ids.len() as u64;
    if failures.len() > 0 {
        let mut e = String::new();
        push_number(&mut e, failures.len() as u64);
        e.append(" de ");
        push_number(&mut e, count);
        e.append(" commit(s) inválido(s):\n");
        e.append(report.as_str());
        assert(e@ =~= decimal(failure_lines(iv, vv).len()) + " de "@ + decimal(iv.len()) + " commit(s) inválido(s):\n"@ + joined(failure_lines(iv, vv)));
        return Err(e);
    }
    let mut line = String::new();
    push_number(&mut line, count);
    line.append(" commit(s) válido(s) no intervalo ");
    line.append(from);
    line.append("..");
    line.append(to);
    line.append(".");
    assert(line@ =~= decimal(ids@.len()) + " commit(s) válido(s) no intervalo "@ + range_of(from@, to@) + "."@);
    assert(iv.len() == ids@.len());
    Ok((releases, line))
}

pub open spec fn shallow_range_error() -> Seq<char> {
    "a validação de intervalos exige histórico completo."@
}

/// Requires a full history before a range is checked, given what
/// `git rev-parse --is-shallow-repository` printed.
pub fn require_full_history(shallow: &[u8]) -> (r: Result<(), String>)
    ensures
        r is Ok <==> shallow@ == crate::git::full_history_answer(),
        r matches Err(e) ==> e@ == shallow_range_error(),
{
    if shallow.len() == 6 && shallow[0] == 102 && shallow[1] == 97 && shallow[2] == 108 && shallow[3] == 115
        && shallow[4] == 101 && shallow[5] == 10 {
        assert(shallow@ =~= crate::git::full_history_answer());
        Ok(())
    } else {
        Err(String::from_str("a validação de intervalos exige histórico completo."))
    }
}

} // verus!
