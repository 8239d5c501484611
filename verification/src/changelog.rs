//! Release notes: a `### ` title of at most 180 characters, a blank line and a synthesis,
//! with no HTML, code fences or further headings.
use vstd::prelude::*;
use vstd::string::*;
use crate::message::{MAX_MESSAGE_BYTES, normalized, text_result};
use crate::text::{
    chars_of, contains, exceeds_utf8_len, find_chars, has_char, has_char_in,
    has_forbidden_control, has_forbidden_control_char, is_blank, is_forbidden_control,
    lemma_replace_crlf_without_cr, lemma_trim_idempotent, replace_crlf, replace_crlf_chars,
    slice_of, some_line_starts_with, some_line_starts_with_char, split_once, starts_with,
    starts_with_chars, string_of, trim, trim_chars, utf8_len,
};

verus! {

pub const MAX_TITLE_CHARS: usize = 180;

pub open spec fn limits_error() -> Seq<char> {
    "a entrada deve ter até 16 KiB e não conter caracteres de controle."@
}

pub open spec fn layout_error() -> Seq<char> {
    "use um título ### seguido de uma linha em branco e uma síntese da entrega."@
}

pub open spec fn title_error() -> Seq<char> {
    "a entrada precisa de um título ### com até 180 caracteres e uma síntese não vazia."@
}

pub open spec fn content_error() -> Seq<char> {
    "a entrada deve conter apenas o título e a síntese, sem HTML, cercas de código ou outros títulos."@
}

/// Whether `title` is a `### ` heading of one line with at most 180 characters and text
/// after the marker.
pub open spec fn valid_title(title: Seq<char>) -> bool {
    &&& starts_with(title, "### "@)
    &&& trim(title.skip("### "@.len() as int)).len() > 0
    &&& !has_char(title, '\n')
    &&& title.len() <= MAX_TITLE_CHARS
}

/// Whether the note holds HTML, code fences or a heading line in its body.
pub open spec fn has_foreign_content(note: Seq<char>, body: Seq<char>) -> bool {
    ||| has_char(note, '<')
    ||| has_char(note, '>')
    ||| contains(note, "```"@)
    ||| contains(note, "~~~"@)
    ||| some_line_starts_with(body, '#')
}

/// The verdict on a release note: the normalized note when it follows the layout, else
/// the first rule it breaks.
pub open spec fn note_validation(input: Seq<char>) -> Result<Seq<char>, Seq<char>> {
    let note = normalized(input);
    if utf8_len(note) > MAX_MESSAGE_BYTES || has_forbidden_control(note) {
        Err(limits_error())
    } else {
        match split_once(note, "\n\n"@) {
            None => Err(layout_error()),
            Some((title, body)) => if !valid_title(title) || trim(body).len() == 0 {
                Err(title_error())
            } else if has_foreign_content(note, body) {
                Err(content_error())
            } else {
                Ok(note)
            },
        }
    }
}

fn valid_title_chars(title: &[char]) -> (r: bool)
    ensures
        r == valid_title(title@),
{
    let marker = chars_of("### ");
    if !starts_with_chars(title, &marker) {
        return false;
    }
    let rest = slice_of(title, marker.len(), title.len());
    assert(rest@ == title@.skip(marker@.len() as int));
    !is_blank(&rest) && !has_char_in(title, '\n') && title.len() <= MAX_TITLE_CHARS
}

/// Checks a release note and returns it normalized.
pub fn validate(input: &str) -> (r: Result<String, String>)
    ensures
        text_result(r) == note_validation(input@),
{
    let note = trim_chars(&replace_crlf_chars(&chars_of(input)));
    if exceeds_utf8_len(&note, MAX_MESSAGE_BYTES) || has_forbidden_control_char(&note) {
        return Err(String::from_str(
            "a entrada deve ter até 16 KiB e não conter caracteres de controle.",
        ));
    }
    let separator = chars_of("\n\n");
    let at = match find_chars(&note, &separator) {
        None => {
            return Err(String::from_str(
                "use um título ### seguido de uma linha em branco e uma síntese da entrega.",
            ))
        },
        Some(at) => at,
    };
    assert(at + separator@.len() <= note@.len() && note@.len() == note.len());
    let title = slice_of(&note, 0, at);
    let body = slice_of(&note, at + separator.len(), note.len());
    assert(title@ == note@.take(at as int));
    assert(body@ == note@.skip(at + separator@.len()));
    if !valid_title_chars(&title) || is_blank(&body) {
        return Err(String::from_str(
            "a entrada precisa de um título ### com até 180 caracteres e uma síntese não vazia.",
        ));
    }
    if has_char_in(&note, '<') || has_char_in(&note, '>') || find_chars(&note, &chars_of("```")).is_some()
        || find_chars(&note, &chars_of("~~~")).is_some() || some_line_starts_with_char(&body, '#') {
        return Err(String::from_str(
            "a entrada deve conter apenas o título e a síntese, sem HTML, cercas de código ou outros títulos.",
        ));
    }
    assert(note@.subrange(0, note@.len() as int) == note@);
    Ok(string_of(&note, 0, note.len()))
}

/// A note that passes the layout passes it again unchanged.
pub proof fn lemma_note_validation_idempotent(input: Seq<char>)
    ensures
        note_validation(input) matches Ok(n) ==> note_validation(n) == Ok::<Seq<char>, Seq<char>>(n),
{
    if let Ok(n) = note_validation(input) {
        assert forall|i: int| 0 <= i < n.len() implies n[i] != '\r' by {
            if n[i] == '\r' {
                assert(is_forbidden_control(n[i]));
            }
        }
        lemma_replace_crlf_without_cr(n);
        lemma_trim_idempotent(replace_crlf(input));
        assert(normalized(n) == n);
    }
}

/// A note is never accepted with HTML or a code fence in it: when its normalized text holds
/// `<`, `>`, three backticks or three tildes, the note is refused, and once its size,
/// characters, layout and title pass, refused with the content error.
pub proof fn lemma_notes_refuse_html_and_fences(input: Seq<char>)
    ensures
        ({
            let note = normalized(input);
            ||| has_char(note, '<')
            ||| has_char(note, '>')
            ||| contains(note, "```"@)
            ||| contains(note, "~~~"@)
        }) ==> {
            &&& note_validation(input) is Err
            &&& note_validation(input) != Err::<Seq<char>, Seq<char>>(limits_error()) && note_validation(input) != Err::<
                Seq<char>,
                Seq<char>,
            >(layout_error()) && note_validation(input) != Err::<Seq<char>, Seq<char>>(title_error())
                ==> note_validation(input) == Err::<Seq<char>, Seq<char>>(content_error())
        },
{
}

pub open spec fn not_ancestor_error() -> Seq<char> {
    "--from deve ser ancestral de --to."@
}

/// Requires `--from` to be an ancestor of `--to`, given their merge base as Git printed it.
pub fn range_start(merge_base: &[u8], from: &str) -> (r: Result<(), String>)
    ensures
        r is Ok <==> merge_base@ == crate::git::line_bytes(from@),
        r matches Err(e) ==> e@ == not_ancestor_error(),
{
    if !crate::git::prints_line(merge_base, from) {
        return Err(String::from_str("--from deve ser ancestral de --to."));
    }
    Ok(())
}

/// The diff that a note is generated from, or its error with the way to give the note
/// without the AI.
pub fn note_diff(diff: Result<String, String>) -> (r: Result<String, String>)
    ensures
        match diff {
            Ok(d) => r == Ok::<String, String>(d),
            Err(e) => r matches Err(m) && m@ == e@ + "\nUse --entry-file para fornecer a síntese sem IA."@,
        },
{
    match diff {
        Ok(d) => Ok(d),
        Err(e) => {
            let mut m = e;
            m.append("\nUse --entry-file para fornecer a síntese sem IA.");
            Err(m)
        },
    }
}

pub open spec fn moved_refs_error() -> Seq<char> {
    "uma referência mudou durante a revisão. Execute novamente."@
}

/// Requires both ends of the range to resolve again to the commits that were reviewed.
pub fn refs_unchanged(from_again: Result<String, String>, to_again: Result<String, String>, from: &str, to: &str) -> (r: Result<(), String>)
    ensures
        match from_again {
            Err(e) => r == Err::<(), String>(e),
            Ok(f) => if f@ != from@ {
                r matches Err(e) && e@ == moved_refs_error()
            } else {
                match to_again {
                    Err(e) => r == Err::<(), String>(e),
                    Ok(t) => if t@ != to@ {
                        r matches Err(e) && e@ == moved_refs_error()
                    } else {
                        r is Ok
                    },
                }
            },
        },
{
    let f = from_again?;
    if !crate::text::same_chars(&chars_of(f.as_str()), &chars_of(from)) {
        return Err(String::from_str("uma referência mudou durante a revisão. Execute novamente."));
    }
    let t = to_again?;
    if !crate::text::same_chars(&chars_of(t.as_str()), &chars_of(to)) {
        return Err(String::from_str("uma referência mudou durante a revisão. Execute novamente."));
    }
    Ok(())
}

pub open spec fn no_changes_error() -> Seq<char> {
    "não há alterações no intervalo selecionado."@
}

/// Requires the range to change files, given what `git diff --name-only` printed for it.
pub fn require_changes(names: &[u8]) -> (r: Result<(), String>)
    ensures
        r is Ok <==> names@.len() > 0,
        r matches Err(e) ==> e@ == no_changes_error(),
{
    if names.len() == 0 {
        return Err(String::from_str("não há alterações no intervalo selecionado."));
    }
    Ok(())
}

} // verus!
