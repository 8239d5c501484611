//! Release preparation and verification: the changelog entries that a release adds, the
//! manifest that records it, and the version that it takes.
use vstd::prelude::*;
use vstd::string::*;
use crate::conventional::{calls_for_release, conventional_commit, parse_conventional, release_impact};
use crate::message::{lemma_validation_idempotent, text_result, validate, validation};
use crate::version::{
    Version, advanced, bumped, increment, last_number_overflows, parse_version, plain, prerelease_overflows, semver_parse,
    valid_prerelease, version_result, version_text,
};
use vstd::utf8::{decode_utf8, valid_utf8};
use crate::text::{
    is_white_space, is_white_space_char, utf8_text,
    chars_of, contains, starts_with, starts_with_chars, find, find_chars, find_from, lemma_find_from_bounds, occurs_at, slice_of,
    split_once, string_of,
};

verus! {

/// The text that every release marker holds.
pub open spec fn marker() -> Seq<char> {
    "clean-dev-cycle:release:"@
}

/// The line that opens a changelog entry.
pub open spec fn start_marker() -> Seq<char> {
    "<!-- clean-dev-cycle:release:start -->\n"@
}

/// The line, and blank line, that close a changelog entry.
pub open spec fn end_marker() -> Seq<char> {
    "<!-- clean-dev-cycle:release:end -->\n\n"@
}

pub open spec fn markers_error() -> Seq<char> {
    "marcadores de changelog inválidos."@
}

pub open spec fn incomplete_error() -> Seq<char> {
    "entrada de release incompleta."@
}

pub open spec fn nested_error() -> Seq<char> {
    "entrada de release aninhada."@
}

pub proof fn lemma_marker_lengths()
    ensures
        start_marker().len() == 39,
        end_marker().len() == 38,
        marker().len() == 24,
{
    reveal_strlit("clean-dev-cycle:release:");
    reveal_strlit("<!-- clean-dev-cycle:release:start -->\n");
    reveal_strlit("<!-- clean-dev-cycle:release:end -->\n\n");
}

/// The changelog read from `rest` on: the text outside entries (after `plain`) and the
/// entries (after `found`), or the first marker error.
pub open spec fn entries_from(rest: Seq<char>, plain: Seq<char>, found: Seq<Seq<char>>) -> Result<
    (Seq<char>, Seq<Seq<char>>),
    Seq<char>,
>
    decreases rest.len(),
{
    match split_once(rest, start_marker()) {
        Some((before, after)) => if contains(before, marker()) {
            Err(markers_error())
        } else {
            match split_once(after, end_marker()) {
                None => Err(incomplete_error()),
                Some((entry, remaining)) => if contains(entry, marker()) {
                    Err(nested_error())
                } else {
                    proof {
                        lemma_marker_lengths();
                        lemma_find_from_bounds(rest, start_marker(), 0);
                        lemma_find_from_bounds(after, end_marker(), 0);
                    }
                    entries_from(remaining, plain + before, found.push(entry))
                },
            }
        },
        None => if contains(rest, marker()) {
            Err(markers_error())
        } else {
            Ok((plain + rest, found))
        },
    }
}

/// A changelog split into the text outside release entries and the entries, in order.
pub open spec fn changelog_entries(text: Seq<char>) -> Result<
    (Seq<char>, Seq<Seq<char>>),
    Seq<char>,
> {
    entries_from(text, Seq::empty(), Seq::empty())
}

/// The release entries `found`, each between its markers, in order.
pub open spec fn rendered_entries(found: Seq<Seq<char>>) -> Seq<char>
    decreases found.len(),
{
    if found.len() == 0 {
        Seq::empty()
    } else {
        start_marker() + found[0] + end_marker() + rendered_entries(found.drop_first())
    }
}

proof fn lemma_marker_shapes()
    ensures
        occurs_at(start_marker(), marker(), 5),
        occurs_at(end_marker(), marker(), 5),
        forall|m: int| 0 < m < 29 ==> #[trigger] start_marker()[m] != start_marker()[0],
        forall|m: int| 0 < m < 29 ==> #[trigger] end_marker()[m] != end_marker()[0],
        start_marker().len() == 39,
        end_marker().len() == 38,
        marker().len() == 24,
{
    reveal_strlit("clean-dev-cycle:release:");
    reveal_strlit("<!-- clean-dev-cycle:release:start -->\n");
    reveal_strlit("<!-- clean-dev-cycle:release:end -->\n\n");
    assert(start_marker().subrange(5, 29) =~= marker());
    assert(end_marker().subrange(5, 29) =~= marker());
}

proof fn lemma_find_from_at(s: Seq<char>, pat: Seq<char>, k: int, i: int)
    requires
        0 <= k <= i,
        occurs_at(s, pat, i),
        forall|j: int| k <= j < i ==> !occurs_at(s, pat, j),
    ensures
        find_from(s, pat, k) == Some(i),
    decreases i - k,
{
    if k < i {
        lemma_find_from_at(s, pat, k + 1, i);
    }
}

/// A text without the marker text holds no release marker line.
proof fn lemma_no_marker_line(s: Seq<char>, pat: Seq<char>)
    requires
        occurs_at(pat, marker(), 5),
        !contains(s, marker()),
    ensures
        find(s, pat) is None,
{
    lemma_find_from_bounds(s, pat, 0);
    lemma_find_from_bounds(s, marker(), 0);
    if let Some(j) = find(s, pat) {
        let m = marker().len() as int;
        assert(s.subrange(j + 5, j + 5 + m) =~= pat.subrange(5, 5 + m));
        assert(occurs_at(s, marker(), j + 5));
    }
}

/// A marker line preceded by text without the marker text is first found where it
/// stands.
proof fn lemma_marker_line_first(pre: Seq<char>, pat: Seq<char>, y: Seq<char>)
    requires
        pat.len() >= 29,
        occurs_at(pat, marker(), 5),
        forall|m: int| 0 < m < 29 ==> #[trigger] pat[m] != pat[0],
        !contains(pre, marker()),
    ensures
        find(pre + pat + y, pat) == Some(pre.len() as int),
{
    let x = pre + pat + y;
    let n = pre.len() as int;
    let mk = marker();
    lemma_marker_shapes();
    lemma_find_from_bounds(pre, mk, 0);
    assert(x.subrange(n, n + pat.len()) =~= pat);
    assert forall|j: int| 0 <= j < n implies !occurs_at(x, pat, j) by {
        if occurs_at(x, pat, j) {
            if j + 29 <= n {
                assert forall|t: int| 0 <= t < 24 implies pre.subrange(j + 5, j + 29)[t] == mk[t] by {
                    assert(x.subrange(j, j + pat.len())[5 + t] == pat[5 + t]);
                    assert(pat.subrange(5, 29)[t] == pat[5 + t]);
                    assert(x[j + 5 + t] == pre[j + 5 + t]);
                }
                assert(pre.subrange(j + 5, j + 29) =~= mk);
                assert(occurs_at(pre, mk, j + 5));
            } else {
                let m = n - j;
                assert(x.subrange(j, j + pat.len())[m] == pat[m]);
                assert(x[n] == pat[0]);
            }
        }
    }
    lemma_find_from_at(x, pat, 0, n);
}

proof fn lemma_empty_has_no_marker()
    ensures
        !contains(Seq::<char>::empty(), marker()),
{
    lemma_marker_shapes();
}

proof fn lemma_entries_from_rendered(
    found: Seq<Seq<char>>,
    tail: Seq<char>,
    plain: Seq<char>,
    acc: Seq<Seq<char>>,
)
    requires
        forall|i: int| 0 <= i < found.len() ==> !contains(#[trigger] found[i], marker()),
        !contains(tail, marker()),
    ensures
        entries_from(rendered_entries(found) + tail, plain, acc) == Ok::<
            (Seq<char>, Seq<Seq<char>>),
            Seq<char>,
        >((plain + tail, acc + found)),
    decreases found.len(),
{
    lemma_marker_shapes();
    let st = start_marker();
    let en = end_marker();
    if found.len() == 0 {
        assert(rendered_entries(found) + tail =~= tail);
        lemma_no_marker_line(tail, st);
        assert(acc + found =~= acc);
    } else {
        let e = found[0];
        let more = found.drop_first();
        let r = rendered_entries(more);
        assert forall|i: int| 0 <= i < more.len() implies !contains(#[trigger] more[i], marker()) by {
            assert(more[i] == found[i + 1]);
        }
        lemma_entries_from_rendered(more, tail, plain, acc.push(e));
        let rest = rendered_entries(found) + tail;
        assert(rest =~= Seq::<char>::empty() + st + (e + en + (r + tail)));
        lemma_empty_has_no_marker();
        lemma_marker_line_first(Seq::<char>::empty(), st, e + en + (r + tail));
        let after = e + en + (r + tail);
        assert(rest.take(0) =~= Seq::<char>::empty());
        assert(rest.skip(39) =~= after);
        assert(after =~= e + en + (r + tail));
        lemma_marker_line_first(e, en, r + tail);
        assert(after.take(e.len() as int) =~= e);
        assert(after.skip(e.len() as int + 38) =~= r + tail);
        assert(plain + Seq::<char>::empty() =~= plain);
        assert(acc.push(e) + more =~= acc + found);
    }
}

/// Reading a changelog gives back what rendering wrote: the text around the entries and
/// the entries themselves, when none of them holds the marker text (and, with no entry,
/// neither does the text around them once joined).
pub proof fn lemma_entries_read_back(head: Seq<char>, found: Seq<Seq<char>>, tail: Seq<char>)
    requires
        !contains(head, marker()),
        !contains(tail, marker()),
        forall|i: int| 0 <= i < found.len() ==> !contains(#[trigger] found[i], marker()),
        found.len() > 0 || !contains(head + tail, marker()),
    ensures
        changelog_entries(head + rendered_entries(found) + tail) == Ok::<
            (Seq<char>, Seq<Seq<char>>),
            Seq<char>,
        >((head + tail, found)),
{
    lemma_marker_shapes();
    let st = start_marker();
    let en = end_marker();
    let text = head + rendered_entries(found) + tail;
    if found.len() == 0 {
        assert(text =~= head + tail);
        assert(found =~= Seq::<Seq<char>>::empty());
        lemma_no_marker_line(head + tail, st);
        assert(Seq::<char>::empty() + (head + tail) =~= head + tail);
    } else {
        let e = found[0];
        let more = found.drop_first();
        let r = rendered_entries(more);
        assert forall|i: int| 0 <= i < more.len() implies !contains(#[trigger] more[i], marker()) by {
            assert(more[i] == found[i + 1]);
        }
        let after = e + en + (r + tail);
        assert(text =~= head + st + after);
        lemma_marker_line_first(head, st, after);
        assert(text.take(head.len() as int) =~= head);
        assert(text.skip(head.len() as int + 39) =~= after);
        lemma_marker_line_first(e, en, r + tail);
        assert(after.take(e.len() as int) =~= e);
        assert(after.skip(e.len() as int + 38) =~= r + tail);
        lemma_entries_from_rendered(more, tail, Seq::<char>::empty() + head, Seq::<Seq<char>>::empty().push(e));
        assert(Seq::<char>::empty() + head + tail =~= head + tail);
        assert(Seq::<Seq<char>>::empty().push(e) + more =~= found);
    }
}

/// A changelog of plain text and release entries in turn: `parts[0]`, the first entry
/// between its markers, `parts[1]`, and so on, ending with the last part.
pub open spec fn interleaved(parts: Seq<Seq<char>>, found: Seq<Seq<char>>) -> Seq<char>
    decreases found.len(),
{
    if parts.len() == 0 {
        Seq::empty()
    } else if found.len() == 0 {
        parts[0]
    } else {
        parts[0] + start_marker() + found[0] + end_marker() + interleaved(parts.drop_first(), found.drop_first())
    }
}

/// The parts of a text, joined in order.
pub open spec fn joined_parts(parts: Seq<Seq<char>>) -> Seq<char>
    decreases parts.len(),
{
    if parts.len() == 0 {
        Seq::empty()
    } else {
        parts[0] + joined_parts(parts.drop_first())
    }
}

proof fn lemma_entries_from_interleaved(parts: Seq<Seq<char>>, found: Seq<Seq<char>>, plain: Seq<char>, acc: Seq<Seq<char>>)
    requires
        parts.len() == found.len() + 1,
        forall|i: int| 0 <= i < parts.len() ==> !contains(#[trigger] parts[i], marker()),
        forall|i: int| 0 <= i < found.len() ==> !contains(#[trigger] found[i], marker()),
    ensures
        entries_from(interleaved(parts, found), plain, acc) == Ok::<(Seq<char>, Seq<Seq<char>>), Seq<char>>(
            (plain + joined_parts(parts), acc + found),
        ),
    decreases found.len(),
{
    lemma_marker_shapes();
    let st = start_marker();
    let en = end_marker();
    let p = parts[0];
    if found.len() == 0 {
        lemma_no_marker_line(p, st);
        assert(parts.drop_first() =~= Seq::<Seq<char>>::empty());
        assert(joined_parts(parts.drop_first()) == Seq::<char>::empty());
        assert(joined_parts(parts) =~= p + Seq::<char>::empty());
        assert(p + Seq::<char>::empty() =~= p);
        assert(acc + found =~= acc);
    } else {
        let e = found[0];
        let ps = parts.drop_first();
        let fs = found.drop_first();
        assert forall|i: int| 0 <= i < ps.len() implies !contains(#[trigger] ps[i], marker()) by {
            assert(ps[i] == parts[i + 1]);
        }
        assert forall|i: int| 0 <= i < fs.len() implies !contains(#[trigger] fs[i], marker()) by {
            assert(fs[i] == found[i + 1]);
        }
        let rest = interleaved(ps, fs);
        lemma_entries_from_interleaved(ps, fs, plain + p, acc.push(e));
        let text = interleaved(parts, found);
        let after = e + en + rest;
        assert(text =~= p + st + after);
        lemma_marker_line_first(p, st, after);
        assert(text.take(p.len() as int) =~= p);
        assert(text.skip(p.len() as int + 39) =~= after);
        lemma_marker_line_first(e, en, rest);
        assert(after.take(e.len() as int) =~= e);
        assert(after.skip(e.len() as int + 38) =~= rest);
        assert(plain + p + joined_parts(ps) =~= plain + joined_parts(parts));
        assert(acc.push(e) + fs =~= acc + found);
    }
}

/// Reading a changelog gives back what was written in it, whatever the plain text between
/// the entries: a changelog of plain parts and entries in turn, none holding the marker
/// text, reads as the parts joined and the entries in order.
pub proof fn lemma_changelog_reads_back(parts: Seq<Seq<char>>, found: Seq<Seq<char>>)
    requires
        parts.len() == found.len() + 1,
        forall|i: int| 0 <= i < parts.len() ==> !contains(#[trigger] parts[i], marker()),
        forall|i: int| 0 <= i < found.len() ==> !contains(#[trigger] found[i], marker()),
    ensures
        changelog_entries(interleaved(parts, found)) == Ok::<(Seq<char>, Seq<Seq<char>>), Seq<char>>((joined_parts(parts), found)),
{
    lemma_entries_from_interleaved(parts, found, Seq::empty(), Seq::empty());
    assert(Seq::<char>::empty() + joined_parts(parts) =~= joined_parts(parts));
    assert(Seq::<Seq<char>>::empty() + found =~= found);
}

/// No entry that reading a changelog accepts holds the marker text.
pub proof fn lemma_read_entries_are_clean(text: Seq<char>)
    ensures
        changelog_entries(text) matches Ok((_, found)) ==> forall|i: int|
            0 <= i < found.len() ==> !contains(#[trigger] found[i], marker()),
{
    lemma_entries_clean(text, Seq::empty(), Seq::empty());
}

/// The view of a parsed changelog.
pub open spec fn entries_view(r: Result<(String, Vec<String>), String>) -> Result<
    (Seq<char>, Seq<Seq<char>>),
    Seq<char>,
> {
    match r {
        Ok((plain, found)) => Ok((plain@, found@.map_values(|e: String| e@))),
        Err(e) => Err(e@),
    }
}

/// Splits a changelog into the text outside release entries and the entries, in order;
/// rejects stray, unclosed and nested markers.
pub fn entries(text: &str) -> (r: Result<(String, Vec<String>), String>)
    ensures
        entries_view(r) == changelog_entries(text@),
{
    let start = chars_of("<!-- clean-dev-cycle:release:start -->\n");
    let end = chars_of("<!-- clean-dev-cycle:release:end -->\n\n");
    let mark = chars_of("clean-dev-cycle:release:");
    proof {
        lemma_marker_lengths();
    }
    let mut rest = chars_of(text);
    let mut plain: Vec<char> = Vec::new();
    let mut found: Vec<String> = Vec::new();
    assert(found@.map_values(|e: String| e@) =~= Seq::<Seq<char>>::empty());
    assert(plain@ =~= Seq::<char>::empty());
    loop
        invariant
            start@ == start_marker(),
            end@ == end_marker(),
            mark@ == marker(),
            start_marker().len() == 39,
            end_marker().len() == 38,
            changelog_entries(text@) == entries_from(
                rest@,
                plain@,
                found@.map_values(|e: String| e@),
            ),
        decreases rest@.len(),
    {
        match find_chars(&rest, &start) {
            Some(i) => {
                let before = slice_of(&rest, 0, i);
                if find_chars(&before, &mark).is_some() {
                    return Err(String::from_str("marcadores de changelog inválidos."));
                }
                let n = rest.len();
                assert(i + start@.len() <= n);
                let after = slice_of(&rest, i + start.len(), n);
                match find_chars(&after, &end) {
                    None => {
                        return Err(String::from_str("entrada de release incompleta."));
                    },
                    Some(j) => {
                        let entry = slice_of(&after, 0, j);
                        if find_chars(&entry, &mark).is_some() {
                            return Err(String::from_str("entrada de release aninhada."));
                        }
                        let remaining = slice_of(&after, j + end.len(), after.len());
                        let ghost old_found = found@.map_values(|e: String| e@);
                        let ghost old_plain = plain@;
                        let mut before = before;
                        plain.append(&mut before);
                        let e = string_of(&entry, 0, entry.len());
                        assert(entry@.subrange(0, entry@.len() as int) == entry@);
                        found.push(e);
                        assert(found@.map_values(|e: String| e@) =~= old_found.push(entry@));
                        assert(rest@.take(i as int) == rest@.subrange(0, i as int));
                        assert(after@.take(j as int) == after@.subrange(0, j as int));
                        assert(rest@.skip(i + start@.len()) == after@);
                        assert(after@.skip(j + end@.len()) == remaining@);
                        rest = remaining;
                    },
                }
            },
            None => {
                if find_chars(&rest, &mark).is_some() {
                    return Err(String::from_str("marcadores de changelog inválidos."));
                }
                let mut tail = rest;
                plain.append(&mut tail);
                assert(plain@.subrange(0, plain@.len() as int) == plain@);
                return Ok((string_of(&plain, 0, plain.len()), found));
            },
        }
    }
}

/// The record of a prepared release, kept in the release commit.
#[derive(Debug)]
pub struct Manifest {
    pub schema: u32,
    pub version: String,
    pub parent: String,
    pub base: Option<String>,
    pub base_tag: Option<String>,
    pub fingerprint: String,
    pub message: String,
    pub notes_hash: String,
}

/// A release prepared for review: the tree that holds it, its version and its notes.
#[derive(Debug)]
pub struct Prepared {
    pub tree: String,
    pub version: String,
    pub notes: String,
}

pub open spec fn stable_error() -> Seq<char> {
    "use uma versão estável a partir de 0.1.0, sem metadados de build."@
}

pub open spec fn tag_error() -> Seq<char> {
    "tag de release inválida."@
}

/// Whether `v` is a stable version from 0.1.0 on, without pre-release or build.
pub open spec fn is_stable(v: (u64, u64, u64, Seq<char>, Seq<char>)) -> bool {
    v.3.len() == 0 && v.4.len() == 0 && !(v.0 == 0 && v.1 == 0)
}

/// The verdict on a parsed version that must be stable.
pub open spec fn stable_verdict(parsed: Result<(u64, u64, u64, Seq<char>, Seq<char>), Seq<char>>) -> Result<
    (u64, u64, u64, Seq<char>, Seq<char>),
    Seq<char>,
> {
    match parsed {
        Err(e) => Err(e),
        Ok(v) => if is_stable(v) {
            Ok(v)
        } else {
            Err(stable_error())
        },
    }
}

/// The second half of `stable`: accepts a parsed version only when it is stable.
pub fn require_stable(parsed: Result<Version, String>) -> (r: Result<Version, String>)
    ensures
        version_result(r) == stable_verdict(version_result(parsed)),
{
    match parsed {
        Err(e) => Err(e),
        Ok(v) => {
            if !v.pre.as_str().is_empty() || !v.build.as_str().is_empty() || (v.major == 0 && v.minor == 0) {
                Err(String::from_str("use uma versão estável a partir de 0.1.0, sem metadados de build."))
            } else {
                Ok(v)
            }
        },
    }
}

/// Reads a version that must be stable: from 0.1.0 on, without pre-release or build.
pub fn stable(text: &str) -> (r: Result<Version, String>)
    ensures
        version_result(r) == stable_verdict(semver_parse(text@)),
{
    require_stable(parse_version(text))
}

/// The version that a release tag `v<version>` names.
pub open spec fn tag_version_of(tag: Seq<char>) -> Result<(u64, u64, u64, Seq<char>, Seq<char>), Seq<char>> {
    if tag.len() > 0 && tag[0] == 'v' {
        semver_parse(tag.skip(1))
    } else {
        Err(tag_error())
    }
}

/// Reads the version of a release tag `v<version>`.
pub fn tag_version(tag: &str) -> (r: Result<Version, String>)
    ensures
        version_result(r) == tag_version_of(tag@),
        r matches Ok(v) ==> valid_prerelease(v@.3),
{
    let chars = chars_of(tag);
    if chars.len() == 0 || chars[0] != 'v' {
        return Err(String::from_str("tag de release inválida."));
    }
    let rest = string_of(&chars, 1, chars.len());
    assert(chars@.subrange(1, chars@.len() as int) == tag@.skip(1));
    parse_version(rest.as_str())
}

pub open spec fn opt_text(o: Option<&str>) -> Option<Seq<char>> {
    match o {
        Some(s) => Some(s@),
        None => None,
    }
}

/// The version before a change: that of the pending release in the parent commit, else
/// that of the last published release, else the initial version.
pub open spec fn previous_version_of(
    parent_version: Option<Seq<char>>,
    base_tag: Option<Seq<char>>,
    initial: (u64, u64, u64, Seq<char>, Seq<char>),
) -> Result<(u64, u64, u64, Seq<char>, Seq<char>), Seq<char>> {
    match parent_version {
        Some(v) => semver_parse(v),
        None => match base_tag {
            Some(tag) => tag_version_of(tag),
            None => Ok(initial),
        },
    }
}

/// The version before this change: the pending stack, then the published tag, then the
/// start.
pub fn previous_version(parent: Option<&Manifest>, base_tag: Option<&str>, initial: &Version) -> (r: Result<
    Version,
    String,
>)
    requires
        valid_prerelease(initial@.3),
    ensures
        r matches Ok(v) ==> valid_prerelease(v@.3),
        version_result(r) == previous_version_of(
            match parent {
                Some(m) => Some(m.version@),
                None => None,
            },
            opt_text(base_tag),
            initial@,
        ),
{
    if let Some(parent) = parent {
        return parse_version(parent.version.as_str());
    }
    if let Some(tag) = base_tag {
        return tag_version(tag);
    }
    Ok(initial.copy())
}

/// The version that a change described by `description` releases after `previous`: the
/// same one for the first release, else the next one (see `advanced`): the next
/// pre-release after a pre-release, else by the Conventional Commits rules.
pub open spec fn next_version_of(
    previous: (u64, u64, u64, Seq<char>, Seq<char>),
    description: Seq<char>,
    initial: bool,
) -> (u64, u64, u64, Seq<char>, Seq<char>) {
    if initial {
        previous
    } else {
        advanced(previous, conventional_commit(description))
    }
}

/// The version that a change described by `description` releases after `previous`.
pub fn next_version(previous: &Version, description: &str, initial: bool) -> (r: Version)
    requires
        initial || (supported(previous@) && valid_prerelease(previous@.3)),
    ensures
        r@ == next_version_of(previous@, description@, initial),
{
    if initial {
        previous.copy()
    } else {
        increment(previous, description)
    }
}

/// Whether a change whose description is `description` releases a new version.
pub open spec fn eligibility(description: Seq<char>) -> Result<bool, Seq<char>> {
    match validation(description) {
        Err(e) => Err(e),
        Ok(m) => match conventional_commit(m) {
            Some((kind, _, breaking, _)) => Ok(calls_for_release(kind, breaking)),
            None => Err(Seq::empty()),
        },
    }
}

/// Whether a change releases a new version: its message must follow the profile, and a
/// breaking change, a feature, a fix or a performance improvement releases.
pub fn eligible(description: &str) -> (r: Result<bool, String>)
    ensures
        match r {
            Ok(b) => eligibility(description@) == Ok::<bool, Seq<char>>(b),
            Err(e) => eligibility(description@) == Err::<bool, Seq<char>>(e@),
        },
{
    let message = validate(description)?;
    match parse_conventional(message.as_str()) {
        Some(commit) => Ok(release_impact(&commit)),
        None => {
            assert(false);
            Err(String::new())
        },
    }
}

/// The mode and type that `git ls-tree` prints first for a regular file (`100644 blob `).
pub open spec fn regular_entry() -> Seq<u8> {
    seq![49u8, 48u8, 48u8, 54u8, 52u8, 52u8, 32u8, 98u8, 108u8, 111u8, 98u8, 32u8]
}

/// The same for an executable regular file (`100755 blob `).
pub open spec fn executable_entry() -> Seq<u8> {
    seq![49u8, 48u8, 48u8, 55u8, 53u8, 53u8, 32u8, 98u8, 108u8, 111u8, 98u8, 32u8]
}

pub open spec fn bytes_start(s: Seq<u8>, p: Seq<u8>) -> bool {
    p.len() <= s.len() && s.take(p.len() as int) == p
}

pub open spec fn not_regular_error(path: Seq<char>) -> Seq<char> {
    path + " deve ser um arquivo regular."@
}

pub open spec fn file_not_utf8_error(path: Seq<char>) -> Seq<char> {
    path + " precisa estar em UTF-8."@
}

/// Whether a revision holds `path`, from what `git ls-tree <revision> -- <path>` printed:
/// nothing for no file, a regular file's entry for one, and anything else is refused.
pub open spec fn listing_verdict(path: Seq<char>, listing: Seq<u8>) -> Result<bool, Seq<char>> {
    if listing.len() == 0 {
        Ok(false)
    } else if !bytes_start(listing, regular_entry()) && !bytes_start(listing, executable_entry()) {
        Err(not_regular_error(path))
    } else {
        Ok(true)
    }
}

/// The text of `path` in a revision: none when the revision does not hold it, else its
/// content, which must be UTF-8.
pub open spec fn file_text(path: Seq<char>, listing: Seq<u8>, content: Result<Seq<u8>, Seq<char>>) -> Result<
    Option<Seq<char>>,
    Seq<char>,
> {
    match listing_verdict(path, listing) {
        Err(e) => Err(e),
        Ok(false) => Ok(None),
        Ok(true) => match content {
            Err(e) => Err(e),
            Ok(bytes) => if valid_utf8(bytes) {
                Ok(Some(decode_utf8(bytes)))
            } else {
                Err(file_not_utf8_error(path))
            },
        },
    }
}

fn starts_with_bytes(s: &[u8], p: &[u8]) -> (r: bool)
    ensures
        r == bytes_start(s@, p@),
{
    if p.len() > s.len() {
        return false;
    }
    let mut i: usize = 0;
    while i < p.len()
        invariant
            i <= p@.len(),
            p@.len() <= s@.len(),
            forall|k: int| 0 <= k < i ==> s@[k] == p@[k],
        decreases p.len() - i,
    {
        if s[i] != p[i] {
            assert(s@.take(p@.len() as int)[i as int] != p@[i as int]);
            return false;
        }
        i += 1;
    }
    assert(s@.take(p@.len() as int) =~= p@);
    true
}

/// Whether the revision holds `path` as a regular file, given its `git ls-tree` entry.
pub fn listed_file(path: &str, listing: &[u8]) -> (r: Result<bool, String>)
    ensures
        match r {
            Ok(b) => listing_verdict(path@, listing@) == Ok::<bool, Seq<char>>(b),
            Err(e) => listing_verdict(path@, listing@) == Err::<bool, Seq<char>>(e@),
        },
{
    if listing.len() == 0 {
        return Ok(false);
    }
    let regular: [u8; 12] = [49, 48, 48, 54, 52, 52, 32, 98, 108, 111, 98, 32];
    let executable: [u8; 12] = [49, 48, 48, 55, 53, 53, 32, 98, 108, 111, 98, 32];
    assert(regular@ =~= regular_entry());
    assert(executable@ =~= executable_entry());
    if !starts_with_bytes(listing, &regular) && !starts_with_bytes(listing, &executable) {
        let mut e = String::from_str(path);
        e.append(" deve ser um arquivo regular.");
        return Err(e);
    }
    Ok(true)
}

/// A file of a revision is read faithfully: there is none exactly when `git ls-tree`
/// lists nothing; there is text only for a regular file (a `100644` or `100755` blob), and
/// then it is the content, byte for byte; any other entry (a tree, a link, a submodule) is
/// refused as not regular, and content that is not UTF-8 as such.
pub proof fn lemma_file_reads(path: Seq<char>, listing: Seq<u8>, content: Result<Seq<u8>, Seq<char>>)
    ensures
        (file_text(path, listing, content) == Ok::<Option<Seq<char>>, Seq<char>>(None)) <==> listing.len() == 0,
        file_text(path, listing, content) matches Ok(Some(t)) ==> (bytes_start(listing, regular_entry()) || bytes_start(
            listing,
            executable_entry(),
        )) && content == Ok::<Seq<u8>, Seq<char>>(vstd::utf8::encode_utf8(t)),
        listing.len() > 0 && !bytes_start(listing, regular_entry()) && !bytes_start(listing, executable_entry())
            ==> file_text(path, listing, content) == Err::<Option<Seq<char>>, Seq<char>>(not_regular_error(path)),
        listing.len() > 0 && (bytes_start(listing, regular_entry()) || bytes_start(listing, executable_entry())) && (content matches Ok(
            b,
        ) && !valid_utf8(b)) ==> file_text(path, listing, content) == Err::<Option<Seq<char>>, Seq<char>>(
            file_not_utf8_error(path),
        ),
{
    if let Ok(b) = content {
        if valid_utf8(b) {
            vstd::utf8::decode_utf8_encode_utf8(b);
        }
    }
}

/// The text of `path` in a revision, from its `git ls-tree` entry and, for a regular
/// file, what `git show <revision>:<path>` printed.
pub fn file(path: &str, listing: &[u8], content: Result<Vec<u8>, String>) -> (r: Result<Option<String>, String>)
    ensures
        match r {
            Ok(Some(t)) => file_text(path@, listing@, crate::git::bytes_result(content)) == Ok::<Option<Seq<char>>, Seq<char>>(Some(t@)),
            Ok(None) => file_text(path@, listing@, crate::git::bytes_result(content)) == Ok::<Option<Seq<char>>, Seq<char>>(None),
            Err(e) => file_text(path@, listing@, crate::git::bytes_result(content)) == Err::<Option<Seq<char>>, Seq<char>>(e@),
        },
{
    if !listed_file(path, listing)? {
        return Ok(None);
    }
    let bytes = content?;
    match utf8_text(bytes.as_slice()) {
        Some(t) => Ok(Some(t)),
        None => {
            let mut e = String::from_str(path);
            e.append(" precisa estar em UTF-8.");
            Err(e)
        },
    }
}

/// The words of `s` between white space, with `current` the word read so far
/// (`str::split_whitespace`).
pub open spec fn words_from(s: Seq<char>, current: Seq<char>) -> Seq<Seq<char>>
    decreases s.len(),
{
    if s.len() == 0 {
        if current.len() > 0 {
            seq![current]
        } else {
            Seq::empty()
        }
    } else if is_white_space(s[0]) {
        (if current.len() > 0 {
            seq![current]
        } else {
            Seq::<Seq<char>>::empty()
        }) + words_from(s.drop_first(), Seq::empty())
    } else {
        words_from(s.drop_first(), current.push(s[0]))
    }
}

pub open spec fn words(s: Seq<char>) -> Seq<Seq<char>> {
    words_from(s, Seq::empty())
}

pub open spec fn single_parent_error() -> Seq<char> {
    "a preparação exige um commit com um único pai."@
}

/// The parent of a commit, from what `git rev-list --parents -n 1` printed: the commit
/// and exactly one parent.
pub open spec fn parent_of(line: Seq<char>) -> Result<Seq<char>, Seq<char>> {
    if words(line).len() == 2 {
        Ok(words(line)[1])
    } else {
        Err(single_parent_error())
    }
}

fn split_words(s: &[char]) -> (r: Vec<Vec<char>>)
    ensures
        r@.map_values(|w: Vec<char>| w@) == words(s@),
{
    let mut done: Vec<Vec<char>> = Vec::new();
    let mut current: Vec<char> = Vec::new();
    let mut i: usize = 0;
    assert(s@.skip(0) == s@);
    while i < s.len()
        invariant
            i <= s@.len(),
            words(s@) == done@.map_values(|w: Vec<char>| w@) + words_from(s@.skip(i as int), current@),
        decreases s.len() - i,
    {
        let ghost rest = s@.skip(i as int);
        assert(rest.drop_first() == s@.skip(i + 1));
        let ghost before = done@.map_values(|w: Vec<char>| w@);
        if is_white_space_char(s[i]) {
            if current.len() > 0 {
                let word = current;
                done.push(word);
                assert(done@.map_values(|w: Vec<char>| w@) =~= before.push(word@));
                assert(before + (seq![word@] + words_from(rest.drop_first(), Seq::empty())) =~= before.push(word@) + words_from(rest.drop_first(), Seq::empty()));
            } else {
                assert(Seq::<Seq<char>>::empty() + words_from(rest.drop_first(), Seq::empty()) =~= words_from(rest.drop_first(), Seq::empty()));
            }
            current = Vec::new();
            assert(current@ =~= Seq::<char>::empty());
        } else {
            current.push(s[i]);
        }
        i += 1;
    }
    assert(s@.skip(i as int) =~= Seq::<char>::empty());
    if current.len() > 0 {
        let ghost before = done@.map_values(|w: Vec<char>| w@);
        let word = current;
        done.push(word);
        assert(done@.map_values(|w: Vec<char>| w@) =~= before + seq![word@]);
    } else {
        assert(done@.map_values(|w: Vec<char>| w@) + Seq::<Seq<char>>::empty() =~= done@.map_values(|w: Vec<char>| w@));
    }
    done
}

/// The only parent of a commit, from what `git rev-list --parents -n 1` printed.
pub fn parent(line: &str) -> (r: Result<String, String>)
    ensures
        text_result(r) == parent_of(line@),
{
    let parts = split_words(&chars_of(line));
    if parts.len() != 2 {
        assert(parts@.map_values(|w: Vec<char>| w@).len() == parts@.len());
        return Err(String::from_str("a preparação exige um commit com um único pai."));
    }
    let p = &parts[1];
    assert(words(line@)[1] == p@);
    string_of_all(p)
}

fn string_of_all(v: &Vec<char>) -> (r: Result<String, String>)
    ensures
        r matches Ok(s) && s@ == v@,
{
    assert(v@.subrange(0, v@.len() as int) == v@);
    Ok(string_of(v, 0, v.len()))
}

/// The first lines of every changelog.
pub open spec fn header() -> Seq<char> {
    "# Changelog\n\n"@
}

/// The heading of the entry of `version`.
pub open spec fn version_heading(version: Seq<char>) -> Seq<char> {
    "## "@ + version + "\n\n"@
}

/// The changelog entry of a release: its heading, its notes and a line end.
pub open spec fn release_entry(version: Seq<char>, notes: Seq<char>) -> Seq<char> {
    version_heading(version) + notes + "\n"@
}

/// A changelog that a revision holds, or the bare header when it holds none.
pub open spec fn or_header(log: Option<Seq<char>>) -> Seq<char> {
    match log {
        Some(l) => l,
        None => header(),
    }
}

pub open spec fn own_entry_error() -> Seq<char> {
    "entrada local não corresponde à versão preparada."@
}

pub open spec fn altered_entries_error() -> Seq<char> {
    "entradas anteriores do changelog foram alteradas."@
}

pub open spec fn header_error() -> Seq<char> {
    "CHANGELOG.md deve começar com '# Changelog' e uma linha em branco."@
}

/// The entries that a changelog must hold besides its own candidate entry: all of them,
/// or, when the revision already holds its own prepared release of `version`, those after
/// that release's entry.
pub open spec fn entries_before(current: Seq<Seq<char>>, own_version: Option<Seq<char>>) -> Result<
    Seq<Seq<char>>,
    Seq<char>,
> {
    match own_version {
        None => Ok(current),
        Some(v) => if current.len() > 0 && starts_with(current[0], version_heading(v)) {
            Ok(current.drop_first())
        } else {
            Err(own_entry_error())
        },
    }
}

/// The changelog of a release of `next` with `notes`, from the changelogs of the revision
/// (`existing`) and of its parent, and the version of the release that the revision itself
/// already prepares (or why it could not be read): the new entry goes first, the parent's
/// entries follow unchanged, and the rest of the text stays.
pub open spec fn prepared_log(
    next: Seq<char>,
    notes: Seq<char>,
    existing: Option<Seq<char>>,
    parent: Option<Seq<char>>,
    own_version: Result<Option<Seq<char>>, Seq<char>>,
) -> Result<Seq<char>, Seq<char>> {
    match changelog_entries(or_header(parent)) {
        Err(e) => Err(e),
        Ok((_, previous)) => match changelog_entries(or_header(existing)) {
            Err(e) => Err(e),
            Ok((plain, current)) => match own_version {
                Err(e) => Err(e),
                Ok(own) => match entries_before(current, own) {
                    Err(e) => Err(e),
                    Ok(expected) => if expected != previous {
                        Err(altered_entries_error())
                    } else if !starts_with(plain, header()) {
                        Err(header_error())
                    } else {
                        Ok(header() + rendered_entries(seq![release_entry(next, notes)] + previous)
                            + plain.skip(header().len() as int))
                    },
                },
            },
        },
    }
}

pub open spec fn strings(v: Seq<String>) -> Seq<Seq<char>> {
    v.map_values(|s: String| s@)
}

fn same_entries(a: &Vec<String>, b: &Vec<String>, from: usize) -> (r: bool)
    requires
        from <= a@.len(),
    ensures
        r == (strings(a@).skip(from as int) == strings(b@)),
{
    if a.len() - from != b.len() {
        assert(strings(a@).skip(from as int).len() != strings(b@).len());
        return false;
    }
    let n = a.len();
    let mut i: usize = 0;
    while i < b.len()
        invariant
            n == a@.len(),
            from <= a@.len(),
            a@.len() - from == b@.len(),
            i <= b@.len(),
            forall|k: int| 0 <= k < i ==> a@[from + k]@ == b@[k]@,
        decreases b.len() - i,
    {
        assert(from + i < n);
        if a[from + i] != b[i] {
            assert(strings(a@).skip(from as int)[i as int] != strings(b@)[i as int]);
            return false;
        }
        i += 1;
    }
    assert(strings(a@).skip(from as int) =~= strings(b@));
    true
}

proof fn lemma_rendered_push(found: Seq<Seq<char>>, e: Seq<char>)
    ensures
        rendered_entries(found.push(e)) == rendered_entries(found) + start_marker() + e + end_marker(),
    decreases found.len(),
{
    if found.len() == 0 {
        let one = found.push(e);
        assert(one.drop_first() =~= Seq::<Seq<char>>::empty());
        assert(rendered_entries(one.drop_first()) =~= Seq::<char>::empty());
        assert(one[0] == e);
        assert(rendered_entries(one) =~= start_marker() + e + end_marker() + Seq::<char>::empty());
        assert(rendered_entries(found) + start_marker() + e + end_marker() =~= start_marker() + e + end_marker());
    } else {
        lemma_rendered_push(found.drop_first(), e);
        assert(found.push(e).drop_first() =~= found.drop_first().push(e));
        assert(found.push(e)[0] == found[0]);
        assert(rendered_entries(found.push(e)) =~= rendered_entries(found) + start_marker() + e + end_marker());
    }
}

/// The changelog of the release of `next` with `notes` (see `prepared_log`), from the
/// changelogs of the revision and of its parent (`None` where a revision holds none) and
/// the version of the release that the revision already prepares.
pub fn prepare(
    next: &str,
    notes: &str,
    existing: Option<&str>,
    parent: Option<&str>,
    own_version: Result<Option<String>, String>,
) -> (r: Result<String, String>)
    ensures
        text_result(r) == prepared_log(
            next@,
            notes@,
            opt_text(existing),
            opt_text(parent),
            match own_version {
                Ok(Some(v)) => Ok(Some(v@)),
                Ok(None) => Ok(None),
                Err(e) => Err(e@),
            },
        ),
{
    let parent_log = match parent {
        Some(l) => l,
        None => "# Changelog\n\n",
    };
    let existing_log = match existing {
        Some(l) => l,
        None => "# Changelog\n\n",
    };
    let (_, previous) = entries(parent_log)?;
    let (plain, current) = entries(existing_log)?;
    let ghost prev = strings(previous@);
    let ghost cur = strings(current@);
    let own = own_version?;
    let skip: usize = match own {
        None => 0,
        Some(v) => {
            let mut heading = String::from_str("## ");
            heading.append(v.as_str());
            heading.append("\n\n");
            if current.len() == 0 || !starts_with_chars(&chars_of(current[0].as_str()), &chars_of(heading.as_str())) {
                return Err(String::from_str("entrada local não corresponde à versão preparada."));
            }
            assert(cur[0] == current@[0]@);
            assert(cur.drop_first() == cur.skip(1));
            1
        },
    };
    assert(skip == 0 ==> cur.skip(0) == cur);
    if !same_entries(&current, &previous, skip) {
        return Err(String::from_str("entradas anteriores do changelog foram alteradas."));
    }
    let plain_chars = chars_of(plain.as_str());
    let head = chars_of("# Changelog\n\n");
    if !starts_with_chars(&plain_chars, &head) {
        return Err(String::from_str("CHANGELOG.md deve começar com '# Changelog' e uma linha em branco."));
    }
    let mut log = String::from_str("# Changelog\n\n");
    log.append("<!-- clean-dev-cycle:release:start -->\n");
    log.append("## ");
    log.append(next);
    log.append("\n\n");
    log.append(notes);
    log.append("\n");
    log.append("<!-- clean-dev-cycle:release:end -->\n\n");
    let ghost first = seq![release_entry(next@, notes@)];
    proof {
        assert(log@ =~= header() + start_marker() + release_entry(next@, notes@) + end_marker());
        assert(rendered_entries(first) =~= start_marker() + release_entry(next@, notes@) + end_marker() + rendered_entries(first.drop_first()));
        assert(first.drop_first() =~= Seq::<Seq<char>>::empty());
        assert(log@ =~= header() + rendered_entries(first + prev.take(0)));
    }
    let mut i: usize = 0;
    while i < previous.len()
        invariant
            i <= previous@.len(),
            prev == strings(previous@),
            first == seq![release_entry(next@, notes@)],
            log@ == header() + rendered_entries(first + prev.take(i as int)),
        decreases previous.len() - i,
    {
        let ghost before = first + prev.take(i as int);
        log.append("<!-- clean-dev-cycle:release:start -->\n");
        log.append(previous[i].as_str());
        log.append("<!-- clean-dev-cycle:release:end -->\n\n");
        proof {
            lemma_rendered_push(before, prev[i as int]);
            assert(first + prev.take(i + 1) =~= before.push(prev[i as int]));
            assert(log@ =~= header() + rendered_entries(before) + start_marker() + prev[i as int] + end_marker());
        }
        i += 1;
    }
    assert(prev.take(previous@.len() as int) =~= prev);
    proof {
        reveal_strlit("# Changelog\n\n");
    }
    let rest = string_of(&plain_chars, head.len(), plain_chars.len());
    log.append(rest.as_str());
    Ok(log)
}

proof fn lemma_no_marker_skip(s: Seq<char>, k: int)
    requires
        0 <= k <= s.len(),
        !contains(s, marker()),
    ensures
        !contains(s.skip(k), marker()),
{
    let m = marker();
    lemma_find_from_bounds(s, m, 0);
    lemma_find_from_bounds(s.skip(k), m, 0);
    if let Some(j) = find(s.skip(k), m) {
        assert(s.subrange(j + k, j + k + m.len()) =~= s.skip(k).subrange(j, j + m.len()));
        assert(occurs_at(s, m, j + k));
    }
}

proof fn lemma_header_has_no_marker()
    ensures
        !contains(header(), marker()),
        header().len() == 13,
{
    lemma_marker_lengths();
    reveal_strlit("# Changelog\n\n");
}

proof fn lemma_entries_clean(rest: Seq<char>, plain: Seq<char>, found: Seq<Seq<char>>)
    requires
        forall|i: int| 0 <= i < found.len() ==> !contains(#[trigger] found[i], marker()),
    ensures
        entries_from(rest, plain, found) matches Ok((_, f)) ==> forall|i: int|
            0 <= i < f.len() ==> !contains(#[trigger] f[i], marker()),
    decreases rest.len(),
{
    if let Some((before, after)) = split_once(rest, start_marker()) {
        if !contains(before, marker()) {
            if let Some((entry, remaining)) = split_once(after, end_marker()) {
                if !contains(entry, marker()) {
                    lemma_marker_lengths();
                    lemma_find_from_bounds(rest, start_marker(), 0);
                    lemma_find_from_bounds(after, end_marker(), 0);
                    let f2 = found.push(entry);
                    assert forall|i: int| 0 <= i < f2.len() implies !contains(#[trigger] f2[i], marker()) by {
                        if i < found.len() {
                            assert(f2[i] == found[i]);
                        }
                    }
                    lemma_entries_clean(remaining, plain + before, f2);
                }
            }
        }
    }
}

/// A prepared changelog reads back as the new entry followed by the parent's entries,
/// with the revision's text outside entries unchanged, when neither the new entry nor
/// that text holds the marker text.
pub proof fn lemma_prepared_log_reads_back(
    next: Seq<char>,
    notes: Seq<char>,
    existing: Option<Seq<char>>,
    parent: Option<Seq<char>>,
    own_version: Result<Option<Seq<char>>, Seq<char>>,
)
    requires
        prepared_log(next, notes, existing, parent, own_version) is Ok,
        !contains(release_entry(next, notes), marker()),
        changelog_entries(or_header(existing)) matches Ok((plain, _)) ==> !contains(plain, marker()),
    ensures
        prepared_log(next, notes, existing, parent, own_version) matches Ok(log) ==> (changelog_entries(
            or_header(existing),
        ) matches Ok((plain, _)) ==> (changelog_entries(or_header(parent)) matches Ok((_, previous))
            ==> changelog_entries(log) == Ok::<(Seq<char>, Seq<Seq<char>>), Seq<char>>(
            (plain, seq![release_entry(next, notes)] + previous),
        ))),
{
    if let Ok((_, previous)) = changelog_entries(or_header(parent)) {
        if let Ok((plain, _)) = changelog_entries(or_header(existing)) {
            lemma_header_has_no_marker();
            lemma_entries_clean(or_header(parent), Seq::empty(), Seq::empty());
            let found = seq![release_entry(next, notes)] + previous;
            assert forall|i: int| 0 <= i < found.len() implies !contains(#[trigger] found[i], marker()) by {
                if i > 0 {
                    assert(found[i] == previous[i - 1]);
                }
            }
            let tail = plain.skip(13);
            lemma_no_marker_skip(plain, 13);
            lemma_entries_read_back(header(), found, tail);
            assert(header() + tail =~= plain);
        }
    }
}

/// `s` with the first occurrence of `old` replaced by `new` (`str::replacen` once).
pub open spec fn replace_first(s: Seq<char>, old: Seq<char>, new: Seq<char>) -> Seq<char> {
    match split_once(s, old) {
        None => s,
        Some((a, b)) => a + new + b,
    }
}

/// The changelog entry of a release between its markers.
pub open spec fn marked_entry(version: Seq<char>, notes: Seq<char>) -> Seq<char> {
    start_marker() + release_entry(version, notes) + end_marker()
}

pub open spec fn missing_log_error() -> Seq<char> {
    "changelog preparado ausente."@
}

/// New notes for a prepared release of `version` whose notes were `old`: the notes,
/// checked, and the prepared changelog (`None` when the prepared tree holds none) with the
/// release's entry rewritten.
pub open spec fn revised_notes(version: Seq<char>, old: Seq<char>, notes: Seq<char>, log: Option<Seq<char>>) -> Result<
    (Seq<char>, Seq<char>),
    Seq<char>,
> {
    match crate::changelog::note_validation(notes) {
        Err(e) => Err(e),
        Ok(n) => match log {
            None => Err(missing_log_error()),
            Some(l) => Ok((n, replace_first(l, marked_entry(version, old), marked_entry(version, n)))),
        },
    }
}

fn marked(version: &str, notes: &str) -> (r: String)
    ensures
        r@ == marked_entry(version@, notes@),
{
    let mut e = String::from_str("<!-- clean-dev-cycle:release:start -->\n");
    e.append("## ");
    e.append(version);
    e.append("\n\n");
    e.append(notes);
    e.append("\n");
    e.append("<!-- clean-dev-cycle:release:end -->\n\n");
    assert(e@ =~= marked_entry(version@, notes@));
    e
}

/// Replaces the notes of a prepared release with `notes`, given the changelog of the
/// prepared tree: returns the checked notes and the changelog to write.
pub fn revise_notes(prepared: &Prepared, notes: &str, log: Option<&str>) -> (r: Result<(String, String), String>)
    ensures
        match r {
            Ok((n, l)) => revised_notes(prepared.version@, prepared.notes@, notes@, opt_text(log)) == Ok::<
                (Seq<char>, Seq<char>),
                Seq<char>,
            >((n@, l@)),
            Err(e) => revised_notes(prepared.version@, prepared.notes@, notes@, opt_text(log)) == Err::<
                (Seq<char>, Seq<char>),
                Seq<char>,
            >(e@),
        },
{
    let notes = crate::changelog::validate(notes)?;
    let log = match log {
        None => return Err(String::from_str("changelog preparado ausente.")),
        Some(l) => l,
    };
    let old = chars_of(marked(prepared.version.as_str(), prepared.notes.as_str()).as_str());
    let new = marked(prepared.version.as_str(), notes.as_str());
    let text = chars_of(log);
    match find_chars(&text, &old) {
        None => Ok((notes, String::from_str(log))),
        Some(at) => {
            assert(at + old@.len() <= text@.len() && text@.len() == text.len());
            let mut out = string_of(&text, 0, at);
            out.append(new.as_str());
            out.append(string_of(&text, at + old.len(), text.len()).as_str());
            Ok((notes, out))
        },
    }
}

/// What the library reads of the `[release]` table of `clean-dev-cycle.toml`: its keys in
/// the table's order, `enabled` where it is a boolean, and `initial_version` (`None` when
/// absent, `Some(None)` when not text).
#[derive(Debug)]
pub struct ReleaseSection {
    pub keys: Vec<String>,
    pub enabled: Option<bool>,
    pub initial_version: Option<Option<String>>,
}

pub open spec fn config_error(e: Seq<char>) -> Seq<char> {
    "configuração inválida: "@ + e
}

pub open spec fn table_error() -> Seq<char> {
    "[release] deve ser uma tabela."@
}

pub open spec fn unknown_key_error(key: Seq<char>) -> Seq<char> {
    "chave desconhecida em [release]: "@ + key + "."@
}

pub open spec fn enabled_error() -> Seq<char> {
    "release.enabled deve ser booleano."@
}

pub open spec fn initial_text_error() -> Seq<char> {
    "release.initial_version deve ser um texto."@
}

pub open spec fn initial_version_error(e: Seq<char>) -> Seq<char> {
    "release.initial_version: "@ + e
}

pub open spec fn known_key(k: Seq<char>) -> bool {
    k == "enabled"@ || k == "initial_version"@
}

/// The first key of the table that releases do not know.
pub open spec fn first_unknown(keys: Seq<Seq<char>>) -> Option<Seq<char>>
    decreases keys.len(),
{
    if keys.len() == 0 {
        None
    } else if !known_key(keys[0]) {
        Some(keys[0])
    } else {
        first_unknown(keys.drop_first())
    }
}

/// The release settings of a revision: the initial version when releases are enabled.
/// `config` is `None` without a configuration file, else the error of parsing it or its
/// `[release]` entry (`None` without one, `Some(None)` when it is not a table).
pub open spec fn settings_of(config: Option<Result<Option<Option<(Seq<Seq<char>>, Option<bool>, Option<Option<Seq<char>>>)>>, Seq<char>>>) -> Result<
    Option<(u64, u64, u64, Seq<char>, Seq<char>)>,
    Seq<char>,
> {
    match config {
        None => Ok(None),
        Some(Err(e)) => Err(config_error(e)),
        Some(Ok(None)) => Ok(None),
        Some(Ok(Some(None))) => Err(table_error()),
        Some(Ok(Some(Some((keys, enabled, initial))))) => match first_unknown(keys) {
            Some(k) => Err(unknown_key_error(k)),
            None => match enabled {
                None => Err(enabled_error()),
                Some(on) => match initial {
                    None => Ok(if on { Some(plain(0, 1, 0)) } else { None }),
                    Some(None) => Err(initial_text_error()),
                    Some(Some(t)) => match stable_verdict(semver_parse(t)) {
                        Err(e) => Err(initial_version_error(e)),
                        Ok(v) => Ok(if on { Some(v) } else { None }),
                    },
                },
            },
        },
    }
}

pub open spec fn section_view(s: ReleaseSection) -> (Seq<Seq<char>>, Option<bool>, Option<Option<Seq<char>>>) {
    (
        s.keys@.map_values(|k: String| k@),
        s.enabled,
        match s.initial_version {
            None => None,
            Some(None) => Some(None),
            Some(Some(t)) => Some(Some(t@)),
        },
    )
}

pub open spec fn config_view(config: Option<Result<Option<Option<ReleaseSection>>, String>>) -> Option<Result<Option<Option<(Seq<Seq<char>>, Option<bool>, Option<Option<Seq<char>>>)>>, Seq<char>>> {
    match config {
        None => None,
        Some(Err(e)) => Some(Err(e@)),
        Some(Ok(None)) => Some(Ok(None)),
        Some(Ok(Some(None))) => Some(Ok(Some(None))),
        Some(Ok(Some(Some(s)))) => Some(Ok(Some(Some(section_view(s))))),
    }
}

pub open spec fn opt_version(r: Option<Version>) -> Option<(u64, u64, u64, Seq<char>, Seq<char>)> {
    match r {
        Some(v) => Some(v@),
        None => None,
    }
}

/// The release settings of a revision (see `settings_of`).
pub fn settings(config: Option<Result<Option<Option<ReleaseSection>>, String>>) -> (r: Result<Option<Version>, String>)
    ensures
        r matches Ok(Some(v)) ==> v@.3.len() == 0,
        match r {
            Ok(v) => settings_of(config_view(config)) == Ok::<Option<(u64, u64, u64, Seq<char>, Seq<char>)>, Seq<char>>(opt_version(v)),
            Err(e) => settings_of(config_view(config)) == Err::<Option<(u64, u64, u64, Seq<char>, Seq<char>)>, Seq<char>>(e@),
        },
{
    let parsed = match config {
        None => return Ok(None),
        Some(p) => p,
    };
    let section = match parsed {
        Err(e) => {
            let mut m = String::from_str("configuração inválida: ");
            m.append(e.as_str());
            return Err(m);
        },
        Ok(None) => return Ok(None),
        Ok(Some(None)) => return Err(String::from_str("[release] deve ser uma tabela.")),
        Ok(Some(Some(s))) => s,
    };
    let ghost keys = section.keys@.map_values(|k: String| k@);
    let mut i: usize = 0;
    assert(keys.skip(0) == keys);
    while i < section.keys.len()
        invariant
            i <= keys.len(),
            keys == section.keys@.map_values(|k: String| k@),
            config_view(config) == Some(Ok::<Option<Option<(Seq<Seq<char>>, Option<bool>, Option<Option<Seq<char>>>)>>, Seq<char>>(Some(Some(section_view(section))))),
            first_unknown(keys) == first_unknown(keys.skip(i as int)),
        decreases section.keys.len() - i,
    {
        let k = &section.keys[i];
        let ghost rest = keys.skip(i as int);
        assert(rest[0] == k@);
        assert(rest.drop_first() == keys.skip(i + 1));
        let c = chars_of(k.as_str());
        if !crate::text::same_chars(&c, &chars_of("enabled")) && !crate::text::same_chars(&c, &chars_of("initial_version")) {
            let mut m = String::from_str("chave desconhecida em [release]: ");
            m.append(k.as_str());
            m.append(".");
            return Err(m);
        }
        i += 1;
    }
    assert(keys.skip(i as int) =~= Seq::<Seq<char>>::empty());
    let on = match section.enabled {
        None => return Err(String::from_str("release.enabled deve ser booleano.")),
        Some(b) => b,
    };
    let initial = match &section.initial_version {
        None => Version::new(0, 1, 0),
        Some(None) => return Err(String::from_str("release.initial_version deve ser um texto.")),
        Some(Some(t)) => match stable(t.as_str()) {
            Err(e) => {
                let mut m = String::from_str("release.initial_version: ");
                m.append(e.as_str());
                return Err(m);
            },
            Ok(v) => v,
        },
    };
    if on {
        Ok(Some(initial))
    } else {
        Ok(None)
    }
}

/// What the `toml` crate reads of `text` as a table: the text of its error, or `None`
/// without a `release` key, `Some(None)` where it is not a table, else the table's keys in
/// the order it walks them, `enabled` where it is a boolean, and `initial_version` (`None`
/// when absent, `Some(None)` when not a string).
pub uninterp spec fn toml_release_section(text: Seq<char>) -> Result<Option<Option<(Seq<Seq<char>>, Option<bool>, Option<Option<Seq<char>>>)>>, Seq<char>>;

pub open spec fn parsed_section_view(r: Result<Option<Option<ReleaseSection>>, String>) -> Result<Option<Option<(Seq<Seq<char>>, Option<bool>, Option<Option<Seq<char>>>)>>, Seq<char>> {
    match r {
        Err(e) => Err(e@),
        Ok(None) => Ok(None),
        Ok(Some(None)) => Ok(Some(None)),
        Ok(Some(Some(s))) => Ok(Some(Some(section_view(s)))),
    }
}

/// Parses `text` with `toml` as a `toml::Table` and reads its `release` table with `get`,
/// `as_table`, `keys`, `as_bool` and `as_str`. The contract names the result.
#[verifier::external_body]
fn parse_release_section(text: &str) -> (r: Result<Option<Option<ReleaseSection>>, String>)
    ensures
        parsed_section_view(r) == toml_release_section(text@),
{
    text.parse::<toml::Table>().map_err(|e| e.to_string()).map(|config| {
        config.get("release").map(|release| release.as_table().map(|table| ReleaseSection {
            keys: table.keys().cloned().collect(),
            enabled: table.get("enabled").and_then(toml::Value::as_bool),
            initial_version: table.get("initial_version").map(|v| v.as_str().map(str::to_owned)),
        }))
    })
}

/// The release settings from what reading `clean-dev-cycle.toml` of a revision gave: its
/// error, no file, or its text (see `settings_of`).
pub open spec fn file_settings(file: Result<Option<Seq<char>>, Seq<char>>) -> Result<Option<(u64, u64, u64, Seq<char>, Seq<char>)>, Seq<char>> {
    match file {
        Err(e) => Err(e),
        Ok(None) => settings_of(None),
        Ok(Some(text)) => settings_of(Some(toml_release_section(text))),
    }
}

/// The release settings of a revision, from what reading its `clean-dev-cycle.toml` gave
/// (see `file_settings`): `None` where releases are off or not configured, else the
/// initial version.
pub fn settings_from_file(file: Result<Option<String>, String>) -> (r: Result<Option<Version>, String>)
    ensures
        r matches Ok(Some(v)) ==> v@.3.len() == 0,
        match r {
            Ok(v) => file_settings(match file {
                Err(e) => Err(e@),
                Ok(None) => Ok(None),
                Ok(Some(t)) => Ok(Some(t@)),
            }) == Ok::<Option<(u64, u64, u64, Seq<char>, Seq<char>)>, Seq<char>>(opt_version(v)),
            Err(e) => file_settings(match file {
                Err(e) => Err(e@),
                Ok(None) => Ok(None),
                Ok(Some(t)) => Ok(Some(t@)),
            }) == Err::<Option<(u64, u64, u64, Seq<char>, Seq<char>)>, Seq<char>>(e@),
        },
{
    match file {
        Err(e) => Err(e),
        Ok(None) => settings(None),
        Ok(Some(text)) => settings(Some(parse_release_section(text.as_str()))),
    }
}

pub open spec fn invalid_manifest_error(e: Seq<char>) -> Seq<char> {
    "manifesto de release inválido: "@ + e
}

/// The release manifest of a revision, from what parsing its file gave (`None` without
/// the file): its version must be stable.
pub fn manifest(parsed: Option<Result<Manifest, String>>) -> (r: Result<Option<Manifest>, String>)
    ensures
        match parsed {
            None => r matches Ok(None),
            Some(Err(e)) => r matches Err(m) && m@ == invalid_manifest_error(e@),
            Some(Ok(m)) => match stable_verdict(semver_parse(m.version@)) {
                Err(e) => r matches Err(x) && x@ == invalid_manifest_error(e),
                Ok(_) => r == Ok::<Option<Manifest>, String>(Some(m)),
            },
        },
{
    match parsed {
        None => Ok(None),
        Some(Err(e)) => {
            let mut m = String::from_str("manifesto de release inválido: ");
            m.append(e.as_str());
            Err(m)
        },
        Some(Ok(m)) => match stable(m.version.as_str()) {
            Err(e) => {
                let mut x = String::from_str("manifesto de release inválido: ");
                x.append(e.as_str());
                Err(x)
            },
            Ok(_) => Ok(Some(m)),
        },
    }
}

/// What the check of a release says to do when it fails on the preparation.
pub open spec fn repair() -> Seq<char> {
    "Reabra a mudança com jj edit e conclua com clean-dev-cycle commit para preparar a release."@
}

pub open spec fn internal_change_error() -> Seq<char> {
    "mudança interna alterou uma release. "@ + repair()
}

pub open spec fn unprepared_error() -> Seq<char> {
    "release não preparada. "@ + repair()
}

pub open spec fn opt_result(r: Result<Option<String>, String>) -> Result<Option<Seq<char>>, Seq<char>> {
    match r {
        Ok(Some(s)) => Ok(Some(s@)),
        Ok(None) => Ok(None),
        Err(e) => Err(e@),
    }
}

/// The first verdict of the check of a commit whose releases are enabled: its message
/// must follow the profile; given the manifest files and changelogs of the commit and of
/// its parent (or the errors of reading them), a commit that does not release must leave
/// both alone, and one that releases must add a manifest. A release goes on with the
/// message and the entries of both changelogs.
pub open spec fn changes_verdict(
    description: Seq<char>,
    before: Result<Option<Seq<char>>, Seq<char>>,
    after: Result<Option<Seq<char>>, Seq<char>>,
    old_log: Result<Option<Seq<char>>, Seq<char>>,
    log: Result<Option<Seq<char>>, Seq<char>>,
) -> Result<Option<(Seq<char>, Seq<Seq<char>>, Seq<Seq<char>>)>, Seq<char>> {
    match validation(description) {
        Err(e) => Err(e),
        Ok(d) => match (before, after, old_log, log) {
            (Err(e), _, _, _) => Err(e),
            (Ok(_), Err(e), _, _) => Err(e),
            (Ok(_), Ok(_), Err(e), _) => Err(e),
            (Ok(_), Ok(_), Ok(_), Err(e)) => Err(e),
            (Ok(b), Ok(a), Ok(ol), Ok(l)) => match changelog_entries(or_header(ol)) {
                Err(e) => Err(e),
                Ok((_, old)) => match changelog_entries(or_header(l)) {
                    Err(e) => Err(e),
                    Ok((_, all)) => match eligibility(d) {
                        Err(e) => Err(e),
                        Ok(false) => if b != a || old != all {
                            Err(internal_change_error())
                        } else {
                            Ok(None)
                        },
                        Ok(true) => if a is None || a == b {
                            Err(unprepared_error())
                        } else {
                            Ok(Some((d, old, all)))
                        },
                    },
                },
            },
        },
    }
}

/// A release that the check goes on with: the commit's message and the entries of the
/// parent's changelog and of its own.
#[derive(Debug)]
pub struct ReleaseChanges {
    pub description: String,
    pub old_entries: Vec<String>,
    pub entries: Vec<String>,
}

fn same_text(a: &Option<String>, b: &Option<String>) -> (r: bool)
    ensures
        r == (opt_result(Ok(*a)) == opt_result(Ok(*b))),
{
    match (a, b) {
        (None, None) => true,
        (Some(x), Some(y)) => crate::text::same_chars(&chars_of(x.as_str()), &chars_of(y.as_str())),
        _ => false,
    }
}

fn with_repair(problem: &str) -> (r: String)
    ensures
        r@ == problem@ + repair(),
{
    let mut m = String::from_str(problem);
    m.append("Reabra a mudança com jj edit e conclua com clean-dev-cycle commit para preparar a release.");
    m
}

/// The first verdict of the check of a release (see `changes_verdict`).
pub fn check_changes(
    description: &str,
    before: Result<Option<String>, String>,
    after: Result<Option<String>, String>,
    old_log: Result<Option<String>, String>,
    log: Result<Option<String>, String>,
) -> (r: Result<Option<ReleaseChanges>, String>)
    ensures
        match r {
            Ok(None) => changes_verdict(description@, opt_result(before), opt_result(after), opt_result(old_log), opt_result(log))
                == Ok::<Option<(Seq<char>, Seq<Seq<char>>, Seq<Seq<char>>)>, Seq<char>>(None),
            Ok(Some(c)) => changes_verdict(description@, opt_result(before), opt_result(after), opt_result(old_log), opt_result(log))
                == Ok::<Option<(Seq<char>, Seq<Seq<char>>, Seq<Seq<char>>)>, Seq<char>>(Some((c.description@, strings(c.old_entries@), strings(c.entries@)))),
            Err(e) => changes_verdict(description@, opt_result(before), opt_result(after), opt_result(old_log), opt_result(log))
                == Err::<Option<(Seq<char>, Seq<Seq<char>>, Seq<Seq<char>>)>, Seq<char>>(e@),
        },
{
    let d = validate(description)?;
    let b = before?;
    let a = after?;
    let ol = old_log?;
    let l = log?;
    let old_text = match &ol {
        Some(t) => t.as_str(),
        None => "# Changelog\n\n",
    };
    let (_, old) = entries(old_text)?;
    let text = match &l {
        Some(t) => t.as_str(),
        None => "# Changelog\n\n",
    };
    let (_, all) = entries(text)?;
    let releases = eligible(d.as_str())?;
    proof {
        lemma_validation_idempotent(description@);
    }
    assert(strings(old@).skip(0) =~= strings(old@));
    if !releases {
        if !same_text(&b, &a) || !same_entries(&old, &all, 0) {
            return Err(with_repair("mudança interna alterou uma release. "));
        }
        assert(strings(old@).skip(0) == strings(old@));
        return Ok(None);
    }
    if a.is_none() || same_text(&b, &a) {
        return Err(with_repair("release não preparada. "));
    }
    Ok(Some(ReleaseChanges { description: d, old_entries: old, entries: all }))
}

pub open spec fn outdated_error() -> Seq<char> {
    "release desatualizada ou versão inválida. "@ + repair()
}

pub open spec fn incomplete_base_error() -> Seq<char> {
    "base de release incompleta."@
}

/// The versions that the next version can be computed from without overflow: a release
/// with numbers below the largest `u64`, or a pre-release whose number after the last dot
/// is not the largest `u32`.
pub open spec fn supported(v: (u64, u64, u64, Seq<char>, Seq<char>)) -> bool {
    if v.3.len() == 0 {
        v.0 < u64::MAX && v.1 < u64::MAX && v.2 < u64::MAX
    } else {
        !last_number_overflows(v.3)
    }
}

/// The verdict on the manifest of a release, given the manifest of the parent (its
/// version), the parent commit, the commit's message, the initial version and the
/// fingerprint of the commit's content (or the error of computing it): the manifest must
/// be of schema 1, name that parent and message, hold the version that follows the
/// previous one (one with a pre-release or a largest number counts as outdated), and the
/// fingerprint; base commit and base tag come together or not at all.
pub open spec fn metadata_verdict(
    m: Manifest,
    parent_version: Option<Seq<char>>,
    parent: Seq<char>,
    description: Seq<char>,
    initial: (u64, u64, u64, Seq<char>, Seq<char>),
    fingerprint: Result<Seq<char>, Seq<char>>,
) -> Result<(), Seq<char>> {
    match semver_parse(m.version@) {
        Err(e) => Err(e),
        Ok(current) => match previous_version_of(parent_version, opt_view(m.base_tag), initial) {
            Err(e) => Err(e),
            Ok(previous) => {
                let first = parent_version is None && m.base is None;
                if m.schema != 1 || m.parent@ != parent || m.message@ != description || (!first && !supported(previous))
                    || next_version_of(previous, description, first) != current {
                    Err(outdated_error())
                } else {
                    match fingerprint {
                        Err(e) => Err(e),
                        Ok(f) => if m.fingerprint@ != f {
                            Err(outdated_error())
                        } else if m.base is Some != m.base_tag is Some {
                            Err(incomplete_base_error())
                        } else {
                            Ok(())
                        },
                    }
                }
            },
        },
    }
}

pub open spec fn opt_view(o: Option<String>) -> Option<Seq<char>> {
    match o {
        Some(s) => Some(s@),
        None => None,
    }
}

fn opt_str(o: &Option<String>) -> (r: Option<&str>)
    ensures
        opt_text(r) == opt_view(*o),
{
    match o {
        Some(s) => Some(s.as_str()),
        None => None,
    }
}

/// The verdict on the manifest of a release (see `metadata_verdict`).
pub fn check_metadata(
    metadata: &Manifest,
    parent_manifest: Option<&Manifest>,
    parent: &str,
    description: &str,
    initial: &Version,
    fingerprint: Result<String, String>,
) -> (r: Result<(), String>)
    requires
        valid_prerelease(initial@.3),
    ensures
        match r {
            Ok(()) => metadata_verdict(*metadata, match parent_manifest {
                Some(p) => Some(p.version@),
                None => None,
            }, parent@, description@, initial@, text_result_of(fingerprint)) == Ok::<(), Seq<char>>(()),
            Err(e) => metadata_verdict(*metadata, match parent_manifest {
                Some(p) => Some(p.version@),
                None => None,
            }, parent@, description@, initial@, text_result_of(fingerprint)) == Err::<(), Seq<char>>(e@),
        },
{
    let current = parse_version(metadata.version.as_str())?;
    let previous = previous_version(parent_manifest, opt_str(&metadata.base_tag), initial)?;
    let first = parent_manifest.is_none() && metadata.base.is_none();
    let usable = first || if previous.pre.as_str().is_empty() {
        previous.major < u64::MAX && previous.minor < u64::MAX && previous.patch < u64::MAX
    } else {
        !prerelease_overflows(previous.pre.as_str())
    };
    if metadata.schema != 1 || !crate::text::same_chars(&chars_of(metadata.parent.as_str()), &chars_of(parent))
        || !crate::text::same_chars(&chars_of(metadata.message.as_str()), &chars_of(description)) || !usable
        || !next_version(&previous, description, first).same(&current) {
        return Err(with_repair("release desatualizada ou versão inválida. "));
    }
    let f = fingerprint?;
    if !crate::text::same_chars(&chars_of(metadata.fingerprint.as_str()), &chars_of(f.as_str())) {
        return Err(with_repair("release desatualizada ou versão inválida. "));
    }
    if metadata.base.is_some() != metadata.base_tag.is_some() {
        return Err(String::from_str("base de release incompleta."));
    }
    Ok(())
}

pub open spec fn text_result_of(r: Result<String, String>) -> Result<Seq<char>, Seq<char>> {
    match r {
        Ok(s) => Ok(s@),
        Err(e) => Err(e@),
    }
}

pub open spec fn invalid_base_error() -> Seq<char> {
    "base de release inválida."@
}

/// The verdict on the base of a release: the merge base of the resolved base commit and
/// the parent (or the error of reading it) must be that commit, and the base tag must
/// name a version.
pub open spec fn base_verdict(resolved: Seq<char>, merge_base: Result<Seq<u8>, Seq<char>>, tag: Seq<char>) -> Result<(), Seq<char>> {
    match merge_base {
        Err(e) => Err(e),
        Ok(b) => if b != crate::git::line_bytes(resolved) || tag_version_of(tag) is Err {
            Err(invalid_base_error())
        } else {
            Ok(())
        },
    }
}

/// The verdict on the base of a release (see `base_verdict`).
pub fn check_base(resolved: &str, merge_base: Result<Vec<u8>, String>, tag: &str) -> (r: Result<(), String>)
    ensures
        match r {
            Ok(()) => base_verdict(resolved@, crate::git::bytes_result(merge_base), tag@) == Ok::<(), Seq<char>>(()),
            Err(e) => base_verdict(resolved@, crate::git::bytes_result(merge_base), tag@) == Err::<(), Seq<char>>(e@),
        },
{
    let b = merge_base?;
    if !crate::git::prints_line(b.as_slice(), resolved) || tag_version(tag).is_err() {
        return Err(String::from_str("base de release inválida."));
    }
    Ok(())
}

pub open spec fn preserve_error() -> Seq<char> {
    "a release precisa preservar todas as entradas anteriores."@
}

pub open spec fn missing_entry_error() -> Seq<char> {
    "entrada da versão ausente."@
}

/// The notes of a release of `version`: its changelog must hold one entry more than the
/// parent's, first, which starts with the version's heading; what follows the heading
/// must be valid notes.
pub open spec fn entry_notes(version: Seq<char>, old: Seq<Seq<char>>, all: Seq<Seq<char>>) -> Result<Seq<char>, Seq<char>> {
    if all.len() != old.len() + 1 || all.skip(1) != old {
        Err(preserve_error())
    } else if !starts_with(all[0], version_heading(version)) {
        Err(missing_entry_error())
    } else {
        crate::changelog::note_validation(all[0].skip(version_heading(version).len() as int))
    }
}

/// The notes of a release (see `entry_notes`).
pub fn check_entries(version: &str, old: &Vec<String>, all: &Vec<String>) -> (r: Result<String, String>)
    ensures
        text_result(r) == entry_notes(version@, strings(old@), strings(all@)),
{
    if all.len() == 0 || all.len() - 1 != old.len() || !same_entries(all, old, 1) {
        return Err(String::from_str("a release precisa preservar todas as entradas anteriores."));
    }
    let mut heading = String::from_str("## ");
    heading.append(version);
    heading.append("\n\n");
    let first = chars_of(all[0].as_str());
    let h = chars_of(heading.as_str());
    if !starts_with_chars(&first, &h) {
        return Err(String::from_str("entrada da versão ausente."));
    }
    let notes = string_of(&first, h.len(), first.len());
    assert(strings(all@)[0] == all@[0]@);
    crate::changelog::validate(notes.as_str())
}

pub open spec fn notes_changed_error() -> Seq<char> {
    "notas alteradas após a revisão. "@ + repair()
}

/// Requires the notes of a release to hash (or fail to hash) as the manifest recorded.
pub fn check_notes_hash(recorded: &str, hash: Result<String, String>) -> (r: Result<(), String>)
    ensures
        match hash {
            Err(e) => r == Err::<(), String>(e),
            Ok(h) => if h@ == recorded@ {
                r is Ok
            } else {
                r matches Err(e) && e@ == notes_changed_error()
            },
        },
{
    let h = hash?;
    if !crate::text::same_chars(&chars_of(h.as_str()), &chars_of(recorded)) {
        return Err(with_repair("notas alteradas após a revisão. "));
    }
    Ok(())
}

/// Whether version numbers `a` come before `b`.
pub open spec fn numbers_before(a: (u64, u64, u64), b: (u64, u64, u64)) -> bool {
    a.0 < b.0 || (a.0 == b.0 && (a.1 < b.1 || (a.1 == b.1 && a.2 < b.2)))
}

/// A release after another advances the version: the next version comes after the
/// previous one, whatever the change's message.
pub proof fn lemma_next_version_advances(previous: (u64, u64, u64, Seq<char>, Seq<char>), description: Seq<char>)
    requires
        supported(previous),
        previous.3.len() == 0,
    ensures
        ({
            let n = next_version_of(previous, description, false);
            numbers_before((previous.0, previous.1, previous.2), (n.0, n.1, n.2))
        }),
{
}

/// The first release keeps the version it starts from.
pub proof fn lemma_first_release_keeps_version(previous: (u64, u64, u64, Seq<char>, Seq<char>), description: Seq<char>)
    ensures
        next_version_of(previous, description, true) == previous,
{
}

pub open spec fn context_error() -> Seq<char> {
    "publique no job de release do GitHub Actions, após o CI, usando o SHA do evento na main."@
}

/// Requires publication to run in the release job of GitHub Actions on `revision` at
/// `main`, given the values of `GITHUB_ACTIONS`, `GITHUB_SHA` and `GITHUB_REF`.
pub fn publication_context(actions: Option<&str>, sha: Option<&str>, event_ref: Option<&str>, revision: &str) -> (r: Result<(), String>)
    ensures
        r is Ok <==> (opt_text(actions) == Some("true"@) && opt_text(sha) == Some(revision@) && opt_text(event_ref) == Some(
            "refs/heads/main"@,
        )),
        r matches Err(e) ==> e@ == context_error(),
{
    let fits = |o: Option<&str>, v: &str| -> (b: bool)
        ensures
            b == (opt_text(o) == Some(v@)),
        {
            match o {
                Some(x) => crate::text::same_chars(&chars_of(x), &chars_of(v)),
                None => false,
            }
        };
    if !fits(actions, "true") || !fits(sha, revision) || !fits(event_ref, "refs/heads/main") {
        return Err(String::from_str(
            "publique no job de release do GitHub Actions, após o CI, usando o SHA do evento na main.",
        ));
    }
    Ok(())
}

/// Requires the repository of the event (`GITHUB_REPOSITORY`) to be the one of `origin`.
pub fn event_repository(repository: Option<&str>, origin: &str) -> (r: Result<(), String>)
    ensures
        r is Ok <==> opt_text(repository) == Some(origin@),
        r matches Err(e) ==> e@ == "repositório do evento diverge de origin."@,
{
    match repository {
        Some(x) => {
            if crate::text::same_chars(&chars_of(x), &chars_of(origin)) {
                return Ok(());
            }
        },
        None => {},
    }
    Err(String::from_str("repositório do evento diverge de origin."))
}

pub open spec fn entry_file_error() -> Seq<char> {
    "--entry-file exige uma mudança elegível com release.enabled = true."@
}

/// Whether a change prepares a release: releases must be enabled (with their initial
/// version) and the change eligible; otherwise nothing is prepared, and notes given in a
/// file are refused.
pub open spec fn gate(initial: Option<(u64, u64, u64, Seq<char>, Seq<char>)>, description: Seq<char>, entry_file: bool) -> Result<
    Option<(u64, u64, u64, Seq<char>, Seq<char>)>,
    Seq<char>,
> {
    let go = match initial {
        Some(v) => match eligibility(description) {
            Err(e) => Err(e),
            Ok(true) => Ok(Some(v)),
            Ok(false) => Ok(None),
        },
        None => Ok(None),
    };
    match go {
        Err(e) => Err(e),
        Ok(Some(v)) => Ok(Some(v)),
        Ok(None) => if entry_file {
            Err(entry_file_error())
        } else {
            Ok(None)
        },
    }
}

/// Whether a change prepares a release (see `gate`).
pub fn prepare_gate(initial: Option<Version>, description: &str, entry_file: bool) -> (r: Result<Option<Version>, String>)
    ensures
        match r {
            Ok(v) => gate(opt_version(initial), description@, entry_file) == Ok::<Option<(u64, u64, u64, Seq<char>, Seq<char>)>, Seq<char>>(opt_version(v)),
            Err(e) => gate(opt_version(initial), description@, entry_file) == Err::<Option<(u64, u64, u64, Seq<char>, Seq<char>)>, Seq<char>>(e@),
        },
{
    if let Some(v) = initial {
        if eligible(description)? {
            return Ok(Some(v));
        }
    }
    if entry_file {
        return Err(String::from_str("--entry-file exige uma mudança elegível com release.enabled = true."));
    }
    Ok(None)
}

/// The commit of a published release that is tried as a base: its tag must exist.
pub fn tagged_commit(found: Option<String>) -> (r: Result<String, String>)
    ensures
        match found {
            Some(c) => r == Ok::<String, String>(c),
            None => r matches Err(e) && e@ == "release publicada sem tag."@,
        },
{
    match found {
        Some(c) => Ok(c),
        None => Err(String::from_str("release publicada sem tag.")),
    }
}

/// A published commit must be in the local history: missing history must not turn a
/// later release into a first one.
pub fn known_commit(resolved: Result<String, String>) -> (r: Result<String, String>)
    ensures
        match resolved {
            Ok(c) => r == Ok::<String, String>(c),
            Err(_) => r matches Err(e) && e@ == "atualize o histórico com jj git fetch --remote origin antes de preparar a release."@,
        },
{
    match resolved {
        Ok(c) => Ok(c),
        Err(_) => Err(String::from_str(
            "atualize o histórico com jj git fetch --remote origin antes de preparar a release.",
        )),
    }
}

/// The diff that release notes are generated from, or its error with the way to give
/// notes without the AI.
pub fn notes_diff(diff: Result<String, String>) -> (r: Result<String, String>)
    ensures
        match diff {
            Ok(d) => r == Ok::<String, String>(d),
            Err(e) => r matches Err(m) && m@ == e@ + "\nUse commit --entry-file para fornecer notas revisadas sem IA."@,
        },
{
    match diff {
        Ok(d) => Ok(d),
        Err(e) => {
            let mut m = e;
            m.append("\nUse commit --entry-file para fornecer notas revisadas sem IA.");
            Err(m)
        },
    }
}

/// How the reviewed content treats the changelog of a revision: left as it is when there
/// is none (`None`), removed when it holds nothing but the header (`Some(None)`), else
/// rewritten as its text outside release entries; the release preparation writes
/// everything else.
pub open spec fn normalized_edit(log: Option<Seq<char>>) -> Result<Option<Option<Seq<char>>>, Seq<char>> {
    match log {
        None => Ok(None),
        Some(l) => match changelog_entries(l) {
            Err(e) => Err(e),
            Ok((plain, _)) => if plain == header() {
                Ok(Some(None))
            } else {
                Ok(Some(Some(plain)))
            },
        },
    }
}

/// What a preparation writes stays outside the reviewed content: the prepared changelog
/// is reviewed as the revision's own (rewritten as the same text outside release entries,
/// or removed where it holds only the header), and a revision without a changelog gets one
/// that the review removes; so the content of the prepared tree is that of the revision.
pub proof fn lemma_prepared_log_keeps_reviewed_content(
    next: Seq<char>,
    notes: Seq<char>,
    existing: Option<Seq<char>>,
    parent: Option<Seq<char>>,
    own_version: Result<Option<Seq<char>>, Seq<char>>,
)
    requires
        prepared_log(next, notes, existing, parent, own_version) is Ok,
        !contains(release_entry(next, notes), marker()),
        changelog_entries(or_header(existing)) matches Ok((plain, _)) ==> !contains(plain, marker()),
    ensures
        prepared_log(next, notes, existing, parent, own_version) matches Ok(log) ==> normalized_edit(Some(log)) == match existing {
            None => Ok::<Option<Option<Seq<char>>>, Seq<char>>(Some(None)),
            Some(_) => normalized_edit(existing),
        },
{
    lemma_prepared_log_reads_back(next, notes, existing, parent, own_version);
    if existing is None {
        lemma_header_has_no_marker();
        lemma_marker_shapes();
        lemma_no_marker_line(header(), start_marker());
        assert(Seq::<char>::empty() + header() =~= header());
    }
}

/// What the check of a release reads of a changelog that the preparation composed: against
/// the parent's changelog, the entries of the prepared changelog give back the prepared
/// notes, when those are valid notes.
pub proof fn lemma_check_reads_prepared_notes(
    next: Seq<char>,
    notes: Seq<char>,
    existing: Option<Seq<char>>,
    parent: Option<Seq<char>>,
    own_version: Result<Option<Seq<char>>, Seq<char>>,
)
    requires
        prepared_log(next, notes, existing, parent, own_version) is Ok,
        crate::changelog::note_validation(notes) == Ok::<Seq<char>, Seq<char>>(notes),
        !contains(release_entry(next, notes), marker()),
        changelog_entries(or_header(existing)) matches Ok((plain, _)) ==> !contains(plain, marker()),
    ensures
        prepared_log(next, notes, existing, parent, own_version) matches Ok(log) ==> {
            &&& changelog_entries(or_header(parent)) matches Ok((_, old))
            &&& changelog_entries(or_header(Some(log))) matches Ok((_, all))
            &&& entry_notes(next, old, all) == Ok::<Seq<char>, Seq<char>>(notes)
        },
{
    lemma_prepared_log_reads_back(next, notes, existing, parent, own_version);
    let (_, previous) = changelog_entries(or_header(parent))->Ok_0;
    let entry = release_entry(next, notes);
    let all = seq![entry] + previous;
    assert(all.skip(1) =~= previous);
    let heading = version_heading(next);
    assert(entry.take(heading.len() as int) =~= heading);
    assert(all[0] == entry);
    assert(entry.skip(heading.len() as int) =~= notes + "\n"@);
    let with_end = notes + "\n"@;
    reveal_strlit("\n");
    reveal_strlit("\n\n");
    lemma_find_from_bounds(notes, "\n\n"@, 0);
    assert(notes.len() >= 2);
    assert forall|i: int| 0 <= i < notes.len() implies notes[i] != '\r' by {
        if notes[i] == '\r' {
            assert(crate::text::is_forbidden_control(notes[i]));
        }
    }
    crate::text::lemma_replace_crlf_without_cr(notes);
    assert forall|i: int| 0 <= i < with_end.len() implies with_end[i] != '\r' by {
        if i < notes.len() {
            assert(with_end[i] == notes[i]);
        }
    }
    crate::text::lemma_replace_crlf_without_cr(with_end);
    crate::text::lemma_trim_line_end(notes);
    assert(crate::message::normalized(with_end) == crate::message::normalized(notes));
}

/// The edit of the changelog in the reviewed content of a revision (see `normalized_edit`).
pub fn normalized(log: Option<&str>) -> (r: Result<Option<Option<String>>, String>)
    ensures
        match r {
            Ok(None) => normalized_edit(opt_text(log)) == Ok::<Option<Option<Seq<char>>>, Seq<char>>(None),
            Ok(Some(None)) => normalized_edit(opt_text(log)) == Ok::<Option<Option<Seq<char>>>, Seq<char>>(Some(None)),
            Ok(Some(Some(t))) => normalized_edit(opt_text(log)) == Ok::<Option<Option<Seq<char>>>, Seq<char>>(Some(Some(t@))),
            Err(e) => normalized_edit(opt_text(log)) == Err::<Option<Option<Seq<char>>>, Seq<char>>(e@),
        },
{
    let l = match log {
        None => return Ok(None),
        Some(l) => l,
    };
    let (plain, _) = entries(l)?;
    if crate::text::same_chars(&chars_of(plain.as_str()), &chars_of("# Changelog\n\n")) {
        Ok(Some(None))
    } else {
        Ok(Some(Some(plain)))
    }
}

/// The mode that an edited file keeps in a tree: executable when `git ls-tree` lists it
/// so (`100755 `), else a regular file.
pub fn file_mode(entry: &[u8]) -> (r: &'static str)
    ensures
        r@ == (if bytes_start(entry@, seq![49u8, 48u8, 48u8, 55u8, 53u8, 53u8, 32u8]) {
            "100755"@
        } else {
            "100644"@
        }),
{
    let executable: [u8; 7] = [49, 48, 48, 55, 53, 53, 32];
    assert(executable@ =~= seq![49u8, 48u8, 48u8, 55u8, 53u8, 53u8, 32u8]);
    if starts_with_bytes(entry, &executable) {
        "100755"
    } else {
        "100644"
    }
}

/// The JSON text that `serde_json` writes for the object with the fields `content`,
/// `base` and `base_tag` (`null` where absent): compact, with the keys in sorted order.
pub open spec fn fingerprint_json(content: Seq<char>, base: Option<Seq<char>>, tag: Option<Seq<char>>) -> Seq<char> {
    "{\"base\":"@ + crate::json::json_option(base) + ",\"base_tag\":"@ + crate::json::json_option(tag) + ",\"content\":"@
        + crate::json::json_string(content) + "}"@
}

/// Calls `serde_json` to write the object `{"content": .., "base": .., "base_tag": ..}`
/// as JSON text (`Value`'s `Display`, which writes compact JSON; the map of a `Value` keeps
/// its keys sorted, `None` becomes `null`, and strings are escaped as `json_char` states).
#[verifier::external_body]
fn fingerprint_text(content: &str, base: Option<&str>, tag: Option<&str>) -> (r: String)
    ensures
        r@ == fingerprint_json(content@, opt_text(base), opt_text(tag)),
{
    let mut object = serde_json::Map::new();
    object.insert(String::from("content"), serde_json::Value::from(content));
    object.insert(String::from("base"), serde_json::Value::from(base));
    object.insert(String::from("base_tag"), serde_json::Value::from(tag));
    serde_json::Value::Object(object).to_string()
}

/// What the fingerprint of a release hashes: the reviewed content and the published base
/// (commit and tag) it was prepared against.
pub fn fingerprint_data(content: &str, base: Option<&str>, tag: Option<&str>) -> (r: String)
    ensures
        r@ == fingerprint_json(content@, opt_text(base), opt_text(tag)),
{
    fingerprint_text(content, base, tag)
}

} // verus!
