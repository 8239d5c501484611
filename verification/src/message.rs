//! The commit message profile: Conventional Commits with a fixed set of types, a title of
//! at most 100 characters and at most 16 KiB in all.
use vstd::prelude::*;
use vstd::string::*;
use crate::conventional::{ConventionalCommit, conventional_commit, parse_conventional};
use crate::text::{
    chars_of, exceeds_utf8_len, first_line, first_line_len, has_forbidden_control,
    has_forbidden_control_char, is_blank, is_forbidden_control, lemma_replace_crlf_without_cr,
    lemma_trim_idempotent, replace_crlf, replace_crlf_chars, same_chars, string_of,
    trim, trim_chars, utf8_len,
};

verus! {

pub const MAX_MESSAGE_BYTES: usize = 16 * 1024;

pub const MAX_TITLE_CHARS: usize = 100;

/// The text that is checked: "\r\n" turned into "\n", then trimmed.
pub open spec fn normalized(input: Seq<char>) -> Seq<char> {
    trim(replace_crlf(input))
}

/// The commit types that the profile admits.
pub open spec fn allowed_kind(kind: Seq<char>) -> bool {
    ||| kind == "feat"@
    ||| kind == "fix"@
    ||| kind == "perf"@
    ||| kind == "refactor"@
    ||| kind == "docs"@
    ||| kind == "test"@
    ||| kind == "style"@
    ||| kind == "ci"@
    ||| kind == "build"@
    ||| kind == "chore"@
    ||| kind == "revert"@
}

pub open spec fn size_error() -> Seq<char> {
    "a mensagem deve ter entre 1 byte e 16 KiB."@
}

pub open spec fn control_error() -> Seq<char> {
    "a mensagem contém caracteres de controle inválidos."@
}

pub open spec fn title_error() -> Seq<char> {
    "o título deve ter no máximo 100 caracteres."@
}

pub open spec fn format_error() -> Seq<char> {
    "use Conventional Commits: tipo(escopo opcional): descrição; separe o corpo com uma linha em branco."@
}

pub open spec fn kind_error(kind: Seq<char>) -> Seq<char> {
    "tipo de commit não permitido: "@ + kind + "."@
}

pub open spec fn empty_description_error() -> Seq<char> {
    "a descrição do commit está vazia."@
}

/// The rule that the normalized text `m` breaks before it is parsed, if any.
pub open spec fn text_rule_error(m: Seq<char>) -> Option<Seq<char>> {
    if m.len() == 0 || utf8_len(m) > MAX_MESSAGE_BYTES {
        Some(size_error())
    } else if has_forbidden_control(m) {
        Some(control_error())
    } else if first_line(m).len() > MAX_TITLE_CHARS {
        Some(title_error())
    } else {
        None
    }
}

/// The verdict on the normalized text `m`, given what the parser reported of it.
pub open spec fn parsed_verdict(
    m: Seq<char>,
    parsed: Option<(Seq<char>, Seq<char>, bool, bool)>,
) -> Result<Seq<char>, Seq<char>> {
    match parsed {
        None => Err(format_error()),
        Some((kind, description, _, _)) => if !allowed_kind(kind) {
            Err(kind_error(kind))
        } else if trim(description).len() == 0 {
            Err(empty_description_error())
        } else {
            Ok(m)
        },
    }
}

/// The verdict on a message: the normalized text when it follows the profile, else the
/// first rule it breaks.
pub open spec fn validation(input: Seq<char>) -> Result<Seq<char>, Seq<char>> {
    let m = normalized(input);
    match text_rule_error(m) {
        Some(e) => Err(e),
        None => parsed_verdict(m, conventional_commit(m)),
    }
}

/// A message that passes the profile passes it again unchanged: the normalized text is
/// its own normalization.
pub proof fn lemma_validation_idempotent(input: Seq<char>)
    ensures
        validation(input) matches Ok(m) ==> validation(m) == Ok::<Seq<char>, Seq<char>>(m),
{
    if let Ok(m) = validation(input) {
        let m0 = normalized(input);
        assert(m == m0);
        assert forall|i: int| 0 <= i < m.len() implies m[i] != '\r' by {
            if m[i] == '\r' {
                assert(is_forbidden_control(m[i]));
            }
        }
        lemma_replace_crlf_without_cr(m);
        lemma_trim_idempotent(replace_crlf(input));
        assert(normalized(m) == m);
    }
}

/// The title limit measures the first line alone: a message is refused for its title
/// only when its normalized text runs for more than 100 characters before any line end,
/// and, once its size and characters are admissible, such a message is always refused so,
/// however short or long the lines after its first line end are.
pub proof fn lemma_title_limit_is_the_first_line(input: Seq<char>)
    ensures
        validation(input) == Err::<Seq<char>, Seq<char>>(title_error()) ==> normalized(input).len() > 100 && forall|k: int|
            0 <= k <= 100 ==> normalized(input)[k] != '\n',
        ({
            let m = normalized(input);
            &&& m.len() > 100
            &&& forall|k: int| 0 <= k <= 100 ==> m[k] != '\n'
            &&& utf8_len(m) <= MAX_MESSAGE_BYTES
            &&& !has_forbidden_control(m)
        }) ==> validation(input) == Err::<Seq<char>, Seq<char>>(title_error()),
{
    let m = normalized(input);
    crate::text::lemma_first_line_longer(m, 100);
    reveal_strlit("o título deve ter no máximo 100 caracteres.");
    reveal_strlit("a mensagem deve ter entre 1 byte e 16 KiB.");
    reveal_strlit("a mensagem contém caracteres de controle inválidos.");
    reveal_strlit("use Conventional Commits: tipo(escopo opcional): descrição; separe o corpo com uma linha em branco.");
    reveal_strlit("tipo de commit não permitido: ");
    reveal_strlit("a descrição do commit está vazia.");
    assert(title_error()[0] != size_error()[0]);
    assert(title_error()[0] != control_error()[0]);
    assert(title_error()[0] != format_error()[0]);
    assert(title_error()[0] != empty_description_error()[0]);
    assert forall|k: Seq<char>| title_error() != #[trigger] kind_error(k) by {
        assert(kind_error(k)[0] == 't');
        assert(title_error()[0] == 'o');
    }
}

/// The view of a textual result.
pub open spec fn text_result(r: Result<String, String>) -> Result<Seq<char>, Seq<char>> {
    match r {
        Ok(s) => Ok(s@),
        Err(e) => Err(e@),
    }
}

pub fn allowed_commit_kind(kind: &str) -> (r: bool)
    ensures
        r == allowed_kind(kind@),
{
    let k = chars_of(kind);
    same_chars(&k, &chars_of("feat")) || same_chars(&k, &chars_of("fix")) || same_chars(
        &k,
        &chars_of("perf"),
    ) || same_chars(&k, &chars_of("refactor")) || same_chars(&k, &chars_of("docs"))
        || same_chars(&k, &chars_of("test")) || same_chars(&k, &chars_of("style")) || same_chars(
        &k,
        &chars_of("ci"),
    ) || same_chars(&k, &chars_of("build")) || same_chars(&k, &chars_of("chore")) || same_chars(
        &k,
        &chars_of("revert"),
    )
}

/// The second half of `validate`: the verdict on the normalized text `message` once the
/// parser has reported `parsed` of it.
pub fn judge_parsed(message: String, parsed: Option<ConventionalCommit>) -> (r: Result<
    String,
    String,
>)
    ensures
        text_result(r) == parsed_verdict(
            message@,
            match parsed {
                Some(c) => Some(c@),
                None => None,
            },
        ),
{
    match parsed {
        None => Err(String::from_str(
            "use Conventional Commits: tipo(escopo opcional): descrição; separe o corpo com uma linha em branco.",
        )),
        Some(c) => {
            if !allowed_commit_kind(c.kind.as_str()) {
                let mut e = String::from_str("tipo de commit não permitido: ");
                e.append(c.kind.as_str());
                e.append(".");
                Err(e)
            } else if is_blank(&chars_of(c.description.as_str())) {
                Err(String::from_str("a descrição do commit está vazia."))
            } else {
                Ok(message)
            }
        },
    }
}

/// Checks a commit message against the profile and returns it normalized.
pub fn validate(input: &str) -> (r: Result<String, String>)
    ensures
        text_result(r) == validation(input@),
{
    let chars = replace_crlf_chars(&chars_of(input));
    let m = trim_chars(&chars);
    if m.len() == 0 || exceeds_utf8_len(&m, MAX_MESSAGE_BYTES) {
        return Err(String::from_str("a mensagem deve ter entre 1 byte e 16 KiB."));
    }
    if has_forbidden_control_char(&m) {
        return Err(String::from_str("a mensagem contém caracteres de controle inválidos."));
    }
    if first_line_len(&m) > MAX_TITLE_CHARS {
        return Err(String::from_str("o título deve ter no máximo 100 caracteres."));
    }
    let message = string_of(&m, 0, m.len());
    assert(m@.subrange(0, m@.len() as int) == m@);
    let parsed = parse_conventional(message.as_str());
    judge_parsed(message, parsed)
}

} // verus!
