//! What the library reads of a finished process, and the excerpts of its output that
//! reach error messages.
use vstd::prelude::*;
use vstd::utf8::{decode_utf8, valid_utf8};
use crate::text::{chars_of, has_forbidden_control, is_control_char, is_forbidden_control, lemma_trim_idempotent, lemma_trim_within, slice_of, trim, trim_chars, string_of};

verus! {

/// How a process ended: whether its exit status was success, and what it wrote.
#[derive(Debug)]
pub struct Outcome {
    pub success: bool,
    pub stdout: Vec<u8>,
    pub stderr: Vec<u8>,
}

/// How to run a command: the directory it runs in (the bytes of its path), its arguments,
/// what goes to its standard input, how many seconds it may run, how many bytes each of
/// its two outputs may hold, and the environment variables set for it.
#[derive(Debug)]
pub struct Request {
    pub dir: Vec<u8>,
    pub args: Vec<String>,
    pub input: Vec<u8>,
    pub timeout_secs: u64,
    pub output_limit: usize,
    pub env: Vec<(String, String)>,
}

/// The arguments of a request as text.
pub open spec fn args_view(args: Seq<String>) -> Seq<Seq<char>> {
    args.map_values(|s: String| s@)
}

/// The environment of a request as pairs of texts.
pub open spec fn env_view(env: Seq<(String, String)>) -> Seq<(Seq<char>, Seq<char>)> {
    env.map_values(|p: (String, String)| (p.0@, p.1@))
}

/// The text that `String::from_utf8_lossy` makes of `bytes`.
pub uninterp spec fn utf8_lossy(bytes: Seq<u8>) -> Seq<char>;

/// Calls `String::from_utf8_lossy`. Its documentation: invalid sequences become U+FFFD,
/// and valid UTF-8 is decoded as it stands; the contract states the second point and
/// names the result otherwise.
#[verifier::external_body]
pub(crate) fn decode_lossy(bytes: &[u8]) -> (r: String)
    ensures
        r@ == utf8_lossy(bytes@),
        valid_utf8(bytes@) ==> r@ == decode_utf8(bytes@),
{
    String::from_utf8_lossy(bytes).into_owned()
}

/// `s` without control characters other than line feed and tab.
pub open spec fn visible(s: Seq<char>) -> Seq<char>
    decreases s.len(),
{
    if s.len() == 0 {
        s
    } else if is_forbidden_control(s.last()) {
        visible(s.drop_last())
    } else {
        visible(s.drop_last()).push(s.last())
    }
}

/// The first `n` characters of `s`, or all of them when there are fewer.
pub open spec fn at_most(s: Seq<char>, n: nat) -> Seq<char> {
    if s.len() <= n {
        s
    } else {
        s.take(n as int)
    }
}

pub const MAX_DIAGNOSTIC_CHARS: usize = 2000;

/// The excerpt of a process's text output that an error message quotes.
pub open spec fn excerpt(text: Seq<char>) -> Seq<char> {
    trim(at_most(visible(text), MAX_DIAGNOSTIC_CHARS as nat))
}

/// The excerpt of `text` that an error message quotes: without control characters other
/// than line feed and tab, at most 2000 characters, trimmed.
pub fn printable_excerpt(text: &str) -> (r: String)
    ensures
        r@ == excerpt(text@),
{
    let chars = chars_of(text);
    let mut kept: Vec<char> = Vec::new();
    let mut i: usize = 0;
    while i < chars.len() && kept.len() < MAX_DIAGNOSTIC_CHARS
        invariant
            i <= chars@.len(),
            kept@ == visible(chars@.take(i as int)),
            kept@.len() <= MAX_DIAGNOSTIC_CHARS,
        decreases chars.len() - i,
    {
        let c = chars[i];
        assert(chars@.take(i + 1).drop_last() == chars@.take(i as int));
        if !is_control_char(c) || c == '\n' || c == '\t' {
            kept.push(c);
        }
        i += 1;
    }
    proof {
        lemma_visible_prefix(chars@, i as int);
        if i == chars@.len() {
            assert(chars@.take(i as int) == chars@);
        } else {
            let v = visible(chars@);
            assert(kept@ == v.take(2000));
            if v.len() == 2000 {
                assert(v.take(2000) == v);
            }
        }
        assert(kept@ == at_most(visible(chars@), MAX_DIAGNOSTIC_CHARS as nat));
    }
    let t = trim_chars(&kept);
    assert(t@.subrange(0, t@.len() as int) == t@);
    string_of(&t, 0, t.len())
}

/// Keeping the visible characters of a prefix gives a prefix of the visible characters.
proof fn lemma_visible_prefix(s: Seq<char>, i: int)
    requires
        0 <= i <= s.len(),
    ensures
        visible(s.take(i)).len() <= visible(s).len(),
        visible(s.take(i)) == visible(s).take(visible(s.take(i)).len() as int),
        visible(s.take(i)).len() < visible(s).len() ==> i < s.len(),
    decreases s.len() - i,
{
    if i < s.len() {
        lemma_visible_prefix(s, i + 1);
        assert(s.take(i + 1).drop_last() == s.take(i));
        let a = visible(s.take(i));
        let b = visible(s.take(i + 1));
        assert(a == b.take(a.len() as int));
    } else {
        assert(s.take(i) == s);
        assert(visible(s).take(visible(s).len() as int) == visible(s));
    }
}

/// The excerpt of a process's byte output that an error message quotes: at most 2000
/// characters, trimmed, without control characters other than line feed and tab; UTF-8
/// output that already is so is quoted trimmed.
pub fn diagnostic(bytes: &[u8]) -> (r: String)
    ensures
        r@ == excerpt(utf8_lossy(bytes@)),
        r@.len() <= MAX_DIAGNOSTIC_CHARS,
        trim(r@) == r@,
        !has_forbidden_control(r@),
        valid_utf8(bytes@) && decode_utf8(bytes@).len() <= MAX_DIAGNOSTIC_CHARS && !has_forbidden_control(decode_utf8(bytes@))
            ==> r@ == trim(decode_utf8(bytes@)),
{
    let text = decode_lossy(bytes);
    proof {
        lemma_excerpt_bounds(utf8_lossy(bytes@));
    }
    printable_excerpt(text.as_str())
}

proof fn lemma_visible_clean(s: Seq<char>)
    ensures
        !has_forbidden_control(visible(s)),
        visible(s).len() <= s.len(),
        !has_forbidden_control(s) ==> visible(s) == s,
    decreases s.len(),
{
    if s.len() > 0 {
        lemma_visible_clean(s.drop_last());
        let v = visible(s.drop_last());
        if !has_forbidden_control(s) {
            assert forall|i: int| 0 <= i < s.drop_last().len() implies !is_forbidden_control(#[trigger] s.drop_last()[i]) by {
                assert(s.drop_last()[i] == s[i]);
            }
            assert(!is_forbidden_control(s[s.len() - 1]));
            assert(s.drop_last().push(s.last()) =~= s);
        }
        if !is_forbidden_control(s.last()) {
            assert forall|i: int| 0 <= i < v.push(s.last()).len() implies !is_forbidden_control(#[trigger] v.push(s.last())[i]) by {
                if i < v.len() {
                    assert(v.push(s.last())[i] == v[i]);
                }
            }
        }
    }
}

/// What an error message quotes of a process's output is at most 2000 characters, trimmed,
/// and free of control characters other than line feed and tab; output that already is so
/// (up to the trimming) is quoted as it stands, trimmed.
pub proof fn lemma_excerpt_bounds(text: Seq<char>)
    ensures
        excerpt(text).len() <= MAX_DIAGNOSTIC_CHARS,
        trim(excerpt(text)) == excerpt(text),
        !has_forbidden_control(excerpt(text)),
        text.len() <= MAX_DIAGNOSTIC_CHARS && !has_forbidden_control(text) ==> excerpt(text) == trim(text),
{
    let v = visible(text);
    lemma_visible_clean(text);
    let a = at_most(v, MAX_DIAGNOSTIC_CHARS as nat);
    assert(!has_forbidden_control(a)) by {
        if v.len() > MAX_DIAGNOSTIC_CHARS {
            assert forall|i: int| 0 <= i < a.len() implies !is_forbidden_control(#[trigger] a[i]) by {
                assert(a[i] == v[i]);
            }
        }
    }
    let (i, j) = lemma_trim_within(a);
    assert forall|k: int| 0 <= k < excerpt(text).len() implies !is_forbidden_control(#[trigger] excerpt(text)[k]) by {
        assert(excerpt(text)[k] == a[i + k]);
    }
    lemma_trim_idempotent(a);
}

/// The same bounds for what an error message quotes of a process's byte output; UTF-8
/// output without other control characters and of at most 2000 characters is quoted
/// trimmed.
pub proof fn lemma_diagnostic_bounds(bytes: Seq<u8>)
    ensures
        excerpt(utf8_lossy(bytes)).len() <= MAX_DIAGNOSTIC_CHARS,
        trim(excerpt(utf8_lossy(bytes))) == excerpt(utf8_lossy(bytes)),
        !has_forbidden_control(excerpt(utf8_lossy(bytes))),
{
    lemma_excerpt_bounds(utf8_lossy(bytes));
}

/// Why a running process must be stopped, checked in this order: the user cancelled, the
/// time ran out, or its output passed the limit; `None` lets it run on.
pub open spec fn interruption_of(cancelled: bool, timed_out: bool, overflowed: bool) -> Option<Seq<char>> {
    if cancelled {
        Some("operação cancelada."@)
    } else if timed_out {
        Some("tempo limite excedido; nenhum commit foi solicitado ao Git."@)
    } else if overflowed {
        Some("a saída do processo excedeu o limite permitido."@)
    } else {
        None
    }
}

/// Why a running process must be stopped (see `interruption_of`).
pub fn interruption(cancelled: bool, timed_out: bool, overflowed: bool) -> (r: Option<String>)
    ensures
        match r {
            Some(s) => interruption_of(cancelled, timed_out, overflowed) == Some(s@),
            None => interruption_of(cancelled, timed_out, overflowed) is None,
        },
{
    if cancelled {
        Some(String::from_str("operação cancelada."))
    } else if timed_out {
        Some(String::from_str("tempo limite excedido; nenhum commit foi solicitado ao Git."))
    } else if overflowed {
        Some(String::from_str("a saída do processo excedeu o limite permitido."))
    } else {
        None
    }
}

} // verus!
