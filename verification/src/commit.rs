//! The interactive review of a proposed commit message: confirm, edit or cancel.
use vstd::prelude::*;
use vstd::string::*;
use crate::message::{MAX_MESSAGE_BYTES, text_result, validate, validation};
use crate::text::{
    chars_of, exceeds_utf8_len, first_line, first_line_len, same_chars, slice_of, string_of,
    trim, trim_chars, utf8_len,
};

verus! {

pub open spec fn prompt() -> Seq<char> {
    "[Enter/s] confirmar, [e] editar, [n] cancelar: "@
}

pub open spec fn edit_instructions() -> Seq<char> {
    "Digite a mensagem completa. Termine com uma linha contendo apenas um ponto (.).\n"@
}

pub open spec fn choice_hint() -> Seq<char> {
    "Escolha s, e ou n.\n"@
}

pub open spec fn revised_notice(m: Seq<char>) -> Seq<char> {
    "\nMensagem revisada:\n\n"@ + m + "\n\n"@
}

pub open spec fn rejected_notice(e: Seq<char>) -> Seq<char> {
    "Mensagem inválida: "@ + e + "\nA mensagem anterior foi mantida.\n"@
}

pub open spec fn oversized_error() -> Seq<char> {
    "a mensagem editada excede 16 KiB."@
}

/// The lower-case form of the letters that the answers use (`char::to_lowercase` on
/// them); other characters are left as they are, and none of them lowers to such a letter.
pub open spec fn lower_letter(c: char) -> char {
    if 'A' <= c && c <= 'Z' {
        ((c as u32) + 32) as char
    } else if c == 'Ã' {
        'ã'
    } else {
        c
    }
}

/// Whether the answer `line`, trimmed and in lower case, is `word`.
pub open spec fn answer_is(line: Seq<char>, word: Seq<char>) -> bool {
    trim(line).map_values(|c: char| lower_letter(c)) == word
}

pub open spec fn confirms(line: Seq<char>) -> bool {
    answer_is(line, ""@) || answer_is(line, "s"@) || answer_is(line, "sim"@)
}

pub open spec fn declines(line: Seq<char>) -> bool {
    answer_is(line, "n"@) || answer_is(line, "não"@) || answer_is(line, "nao"@)
}

/// Whether `line`, without its line ending, is the lone dot that ends an edit.
pub open spec fn ends_edit(line: Seq<char>) -> bool {
    strip_line_end(line) == "."@
}

/// `line` without the carriage returns and line feeds that end it.
pub open spec fn strip_line_end(line: Seq<char>) -> Seq<char>
    decreases line.len(),
{
    if line.len() > 0 && (line.last() == '\r' || line.last() == '\n') {
        strip_line_end(line.drop_last())
    } else {
        line
    }
}

/// What one step of the review does.
pub enum StepView {
    /// Write this text and read the next line.
    Write(Seq<char>),
    /// The review ends: the confirmed message, `None` when cancelled, or an error.
    Done(Result<Option<Seq<char>>, Seq<char>>),
}

#[verifier::opaque]
/// One step of the review: from the current message and the edit in progress (if any),
/// on the next input line (`None` at the end of input), to the new message, the new edit
/// in progress and what to do.
pub open spec fn review_step(
    message: Seq<char>,
    editing: Option<Seq<char>>,
    line: Option<Seq<char>>,
    cancelled: bool,
) -> (Seq<char>, Option<Seq<char>>, StepView) {
    match line {
        None => (message, editing, StepView::Done(Ok(None))),
        Some(line) => if cancelled {
            (message, editing, StepView::Done(Ok(None)))
        } else {
            match editing {
                None => if confirms(line) {
                    (message, None, StepView::Done(Ok(Some(message))))
                } else if declines(line) {
                    (message, None, StepView::Done(Ok(None)))
                } else if answer_is(line, "e"@) {
                    (message, Some(Seq::empty()), StepView::Write(edit_instructions()))
                } else {
                    (message, None, StepView::Write(choice_hint() + prompt()))
                },
                Some(edited) => if ends_edit(line) {
                    match validation(edited) {
                        Ok(valid) => (valid, None, StepView::Write(revised_notice(valid) + prompt())),
                        Err(e) => (message, None, StepView::Write(rejected_notice(e) + prompt())),
                    }
                } else if utf8_len(edited + line) > MAX_MESSAGE_BYTES {
                    (message, Some(edited + line), StepView::Done(Err(oversized_error())))
                } else {
                    (message, Some(edited + line), StepView::Write(Seq::empty()))
                },
            }
        },
    }
}

/// The review in progress.
#[derive(Debug)]
pub struct Review {
    pub message: String,
    pub editing: Option<String>,
}

/// What the caller does next.
#[derive(Debug)]
pub enum ReviewStep {
    Write(String),
    Done(Result<Option<String>, String>),
}

pub open spec fn step_view(s: ReviewStep) -> StepView {
    match s {
        ReviewStep::Write(t) => StepView::Write(t@),
        ReviewStep::Done(Ok(Some(m))) => StepView::Done(Ok(Some(m@))),
        ReviewStep::Done(Ok(None)) => StepView::Done(Ok(None)),
        ReviewStep::Done(Err(e)) => StepView::Done(Err(e@)),
    }
}

pub open spec fn opt_view(o: Option<String>) -> Option<Seq<char>> {
    match o {
        Some(s) => Some(s@),
        None => None,
    }
}

fn lowered(s: &[char]) -> (r: Vec<char>)
    ensures
        r@ == s@.map_values(|c: char| lower_letter(c)),
{
    let mut r: Vec<char> = Vec::new();
    let mut i: usize = 0;
    while i < s.len()
        invariant
            i <= s@.len(),
            r@ == s@.take(i as int).map_values(|c: char| lower_letter(c)),
        decreases s.len() - i,
    {
        let c = s[i];
        let l = if 'A' <= c && c <= 'Z' {
            assert(((c as u32) + 32) as char == lower_letter(c)) by {
                assert((c as u32) + 32 <= 0x7a);
            }
            ((c as u8) + 32) as char
        } else if c == 'Ã' {
            'ã'
        } else {
            c
        };
        r.push(l);
        assert(s@.take(i + 1).map_values(|c: char| lower_letter(c)) =~= s@.take(i as int).map_values(|c: char| lower_letter(c)).push(lower_letter(c)));
        i += 1;
    }
    assert(s@.take(s@.len() as int) == s@);
    r
}

fn answer_is_word(line: &[char], word: &str) -> (r: bool)
    ensures
        r == answer_is(line@, word@),
{
    same_chars(&lowered(&trim_chars(line)), &chars_of(word))
}

fn ends_edit_line(line: &[char]) -> (r: bool)
    ensures
        r == ends_edit(line@),
{
    let mut n: usize = line.len();
    assert(line@.take(n as int) == line@);
    while n > 0 && (line[n - 1] == '\r' || line[n - 1] == '\n')
        invariant
            n <= line@.len(),
            strip_line_end(line@) == strip_line_end(line@.take(n as int)),
        decreases n,
    {
        assert(line@.take(n as int).drop_last() == line@.take(n - 1));
        n -= 1;
    }
    assert(line@.take(n as int) == line@.subrange(0, n as int));
    same_chars(&slice_of(line, 0, n), &chars_of("."))
}

/// The lines that `BufRead::read_line` reads from `s` in turn: each up to and including
/// its line feed, the last one possibly without.
pub open spec fn read_lines(s: Seq<char>) -> Seq<Seq<char>>
    decreases s.len(),
{
    if s.len() == 0 {
        Seq::empty()
    } else {
        let n = first_line(s).len() as int;
        if n < s.len() {
            seq![s.take(n + 1)] + read_lines(s.skip(n + 1))
        } else {
            seq![s]
        }
    }
}

/// The review run over the input lines `lines`, then the end of input: its result and
/// what it writes after the first prompt.
#[verifier::opaque]
pub open spec fn review_run(
    message: Seq<char>,
    editing: Option<Seq<char>>,
    lines: Seq<Seq<char>>,
    cancelled: bool,
) -> (Result<Option<Seq<char>>, Seq<char>>, Seq<char>)
    decreases lines.len(),
{
    let line = if lines.len() == 0 {
        None
    } else {
        Some(lines[0])
    };
    let (m, e, s) = review_step(message, editing, line, cancelled);
    match s {
        StepView::Done(r) => (r, Seq::empty()),
        StepView::Write(t) => if lines.len() == 0 {
            (Ok(None), Seq::empty())
        } else {
            let (r, out) = review_run(m, e, lines.drop_first(), cancelled);
            (r, t + out)
        },
    }
}

proof fn lemma_review_run_step(
    message: Seq<char>,
    editing: Option<Seq<char>>,
    lines: Seq<Seq<char>>,
    cancelled: bool,
)
    ensures
        ({
            let line = if lines.len() == 0 {
                None
            } else {
                Some(lines[0])
            };
            let (m, e, s) = review_step(message, editing, line, cancelled);
            review_run(message, editing, lines, cancelled) == match s {
                StepView::Done(r) => (r, Seq::<char>::empty()),
                StepView::Write(t) => if lines.len() == 0 {
                    (Ok(None), Seq::<char>::empty())
                } else {
                    let (r, out) = review_run(m, e, lines.drop_first(), cancelled);
                    (r, t + out)
                },
            }
        }),
{
    reveal(review_run);
}

/// The text of an edit block: its lines joined, line endings kept.
pub open spec fn edit_text(block: Seq<Seq<char>>) -> Seq<char>
    decreases block.len(),
{
    if block.len() == 0 {
        Seq::empty()
    } else {
        block[0] + edit_text(block.drop_first())
    }
}

/// The proposal after an edit of `text`: the validated text, or the proposal as it was.
pub open spec fn after_edit(message: Seq<char>, text: Seq<char>) -> Seq<char> {
    match validation(text) {
        Ok(v) => v,
        Err(_) => message,
    }
}

proof fn lemma_edit_lines(
    message: Seq<char>,
    acc: Seq<char>,
    block: Seq<Seq<char>>,
    dot: Seq<char>,
    rest: Seq<Seq<char>>,
)
    requires
        ends_edit(dot),
        forall|i: int| 0 <= i < block.len() ==> !ends_edit(#[trigger] block[i]),
        utf8_len(acc + edit_text(block)) <= MAX_MESSAGE_BYTES,
    ensures
        review_run(message, Some(acc), block + seq![dot] + rest, false).0 == review_run(
            after_edit(message, acc + edit_text(block)),
            None,
            rest,
            false,
        ).0,
    decreases block.len(),
{
    reveal(review_step);
    let lines = block + seq![dot] + rest;
    lemma_review_run_step(message, Some(acc), lines, false);
    if block.len() == 0 {
        assert(lines[0] == dot);
        assert(lines.drop_first() =~= rest);
        assert(acc + edit_text(block) =~= acc);
    } else {
        let l = block[0];
        let more = block.drop_first();
        assert(lines[0] == l);
        assert(lines.drop_first() =~= more + seq![dot] + rest);
        assert forall|i: int| 0 <= i < more.len() implies !ends_edit(#[trigger] more[i]) by {
            assert(more[i] == block[i + 1]);
        }
        let whole = acc + edit_text(block);
        assert(whole =~= (acc + l) + edit_text(more));
        assert(whole.take((acc + l).len() as int) =~= acc + l);
        crate::text::lemma_utf8_len_prefix(whole, (acc + l).len() as int);
        lemma_edit_lines(message, acc + l, more, dot, rest);
    }
}

/// What the validation sees of an edit is exactly what was typed: after the answer "e",
/// the lines up to the lone "." are joined, line endings kept, and validated once; a valid
/// text becomes the proposal, an invalid one leaves it as it was, and the review goes on
/// with the lines after the dot.
pub proof fn lemma_edit_block_is_validated(
    message: Seq<char>,
    e_line: Seq<char>,
    block: Seq<Seq<char>>,
    dot: Seq<char>,
    rest: Seq<Seq<char>>,
)
    requires
        answer_is(e_line, "e"@),
        ends_edit(dot),
        forall|i: int| 0 <= i < block.len() ==> !ends_edit(#[trigger] block[i]),
        utf8_len(edit_text(block)) <= MAX_MESSAGE_BYTES,
    ensures
        review_run(message, None, seq![e_line] + block + seq![dot] + rest, false).0 == review_run(
            after_edit(message, edit_text(block)),
            None,
            rest,
            false,
        ).0,
{
    reveal(review_step);
    reveal_strlit("e");
    reveal_strlit("s");
    reveal_strlit("sim");
    reveal_strlit("n");
    reveal_strlit("não");
    reveal_strlit("nao");
    reveal_strlit("");
    assert("e"@.len() != ""@.len() && "e"@[0] != "s"@[0] && "e"@.len() != "sim"@.len());
    assert("e"@[0] != "n"@[0] && "e"@.len() != "não"@.len() && "e"@.len() != "nao"@.len());
    assert(!confirms(e_line));
    assert(!declines(e_line));
    let lines = seq![e_line] + block + seq![dot] + rest;
    lemma_review_run_step(message, None, lines, false);
    assert(lines[0] == e_line);
    assert(lines.drop_first() =~= block + seq![dot] + rest);
    assert(Seq::<char>::empty() + edit_text(block) =~= edit_text(block));
    lemma_edit_lines(message, Seq::empty(), block, dot, rest);
}

proof fn lemma_edit_overflows(message: Seq<char>, acc: Seq<char>, block: Seq<Seq<char>>, rest: Seq<Seq<char>>)
    requires
        forall|i: int| 0 <= i < block.len() ==> !ends_edit(#[trigger] block[i]),
        utf8_len(acc) <= MAX_MESSAGE_BYTES,
        utf8_len(acc + edit_text(block)) > MAX_MESSAGE_BYTES,
    ensures
        review_run(message, Some(acc), block + rest, false).0 == Err::<Option<Seq<char>>, Seq<char>>(oversized_error()),
    decreases block.len(),
{
    reveal(review_step);
    if block.len() == 0 {
        assert(acc + edit_text(block) =~= acc);
    } else {
        let lines = block + rest;
        lemma_review_run_step(message, Some(acc), lines, false);
        let l = block[0];
        let more = block.drop_first();
        assert(lines[0] == l);
        assert(lines.drop_first() =~= more + rest);
        if utf8_len(acc + l) <= MAX_MESSAGE_BYTES {
            assert forall|i: int| 0 <= i < more.len() implies !ends_edit(#[trigger] more[i]) by {
                assert(more[i] == block[i + 1]);
            }
            assert(acc + edit_text(block) =~= (acc + l) + edit_text(more));
            lemma_edit_overflows(message, acc + l, more, rest);
        }
    }
}

/// An edit that grows past the size limit ends the review with the size error before it
/// is ever validated: once "e" was answered, lines that hold no lone "." and whose text
/// exceeds the limit end the review with that error, whatever follows them.
pub proof fn lemma_oversized_edit_is_refused(
    message: Seq<char>,
    e_line: Seq<char>,
    block: Seq<Seq<char>>,
    rest: Seq<Seq<char>>,
)
    requires
        answer_is(e_line, "e"@),
        forall|i: int| 0 <= i < block.len() ==> !ends_edit(#[trigger] block[i]),
        utf8_len(edit_text(block)) > MAX_MESSAGE_BYTES,
    ensures
        review_run(message, None, seq![e_line] + block + rest, false).0 == Err::<Option<Seq<char>>, Seq<char>>(
            oversized_error(),
        ),
{
    reveal(review_step);
    reveal_strlit("e");
    reveal_strlit("s");
    reveal_strlit("sim");
    reveal_strlit("n");
    reveal_strlit("não");
    reveal_strlit("nao");
    reveal_strlit("");
    assert("e"@.len() != ""@.len() && "e"@[0] != "s"@[0] && "e"@.len() != "sim"@.len());
    assert("e"@[0] != "n"@[0] && "e"@.len() != "não"@.len() && "e"@.len() != "nao"@.len());
    assert(!confirms(e_line));
    assert(!declines(e_line));
    let lines = seq![e_line] + block + rest;
    lemma_review_run_step(message, None, lines, false);
    assert(lines[0] == e_line);
    assert(lines.drop_first() =~= block + rest);
    assert(Seq::<char>::empty() + edit_text(block) =~= edit_text(block));
    assert(utf8_len(Seq::<char>::empty()) == 0);
    lemma_edit_overflows(message, Seq::empty(), block, rest);
}

pub open spec fn outcome_view(r: Result<Option<String>, String>) -> Result<Option<Seq<char>>, Seq<char>> {
    match r {
        Ok(Some(m)) => Ok(Some(m@)),
        Ok(None) => Ok(None),
        Err(e) => Err(e@),
    }
}

proof fn lemma_first_line_len(s: Seq<char>)
    ensures
        first_line(s).len() <= s.len(),
        first_line(s).len() < s.len() ==> s[first_line(s).len() as int] == '\n',
        forall|k: int| 0 <= k < first_line(s).len() ==> s[k] != '\n',
    decreases s.len(),
{
    if s.len() > 0 && s[0] != '\n' {
        lemma_first_line_len(s.drop_first());
        assert forall|k: int| 0 <= k < first_line(s).len() implies s[k] != '\n' by {
            if k > 0 {
                assert(s[k] == s.drop_first()[k - 1]);
            }
        }
    }
}

/// Runs the review over the whole input `input` (as a reader would yield it), with the
/// cancellation flag `cancelled`: the result and everything written, first prompt included.
pub fn review(message: String, input: &str, cancelled: bool) -> (r: (
    Result<Option<String>, String>,
    String,
))
    ensures
        outcome_view(r.0) == review_run(message@, None, read_lines(input@), cancelled).0,
        r.1@ == prompt() + review_run(message@, None, read_lines(input@), cancelled).1,
{
    let (mut state, mut written) = Review::start(message);
    let chars = chars_of(input);
    let mut pos: usize = 0;
    let ghost total = review_run(message@, None, read_lines(input@), cancelled);
    assert(chars@.skip(0) == chars@);
    assert(written@ + Seq::<char>::empty() == written@);
    loop
        invariant
            pos <= chars@.len(),
            chars@ == input@,
            total == review_run(message@, None, read_lines(input@), cancelled),
            ({
                let (r1, o1) = review_run(
                    state.message@,
                    opt_view(state.editing),
                    read_lines(chars@.skip(pos as int)),
                    cancelled,
                );
                total.0 == r1 && prompt() + total.1 == written@ + o1
            }),
        decreases chars@.len() - pos,
    {
        let ghost rest = chars@.skip(pos as int);
        if pos == chars.len() {
            assert(rest.len() == 0);
            assert(read_lines(rest) =~= Seq::<Seq<char>>::empty());
            let ghost m0 = state.message@;
            let ghost e0 = opt_view(state.editing);
            let step = state.advance(None, cancelled);
            proof {
                lemma_review_run_step(m0, e0, read_lines(rest), cancelled);
                reveal(review_step);
            }
            match step {
                ReviewStep::Done(result) => {
                    assert(review_run(m0, e0, read_lines(rest), cancelled) == (outcome_view(result), Seq::<char>::empty()));
                    assert(written@ + Seq::<char>::empty() == written@);
                    return (result, written);
                },
                ReviewStep::Write(_) => {
                    assert(false);
                    return (Ok(None), written);
                },
            }
        }
        let rest_chars = slice_of(&chars, pos, chars.len());
        assert(rest_chars@ == rest);
        let n = first_line_len(&rest_chars);
        proof {
            lemma_first_line_len(rest);
        }
        let end = if n < rest_chars.len() { n + 1 } else { n };
        let line = string_of(&rest_chars, 0, end);
        assert(line@ == rest.take(end as int));
        assert(read_lines(rest)[0] == line@);
        assert(read_lines(rest).drop_first() == read_lines(chars@.skip(pos + end))) by {
            if n < rest.len() {
                assert(rest.skip(n + 1) == chars@.skip(pos + n + 1));
            } else {
                assert(chars@.skip(pos + end) =~= Seq::<char>::empty());
            }
        }
        let ghost before = written@;
        let ghost m0 = state.message@;
        let ghost e0 = opt_view(state.editing);
        let ghost lines = read_lines(rest);
        assert(lines.len() > 0);
        let step = state.advance(Some(line.as_str()), cancelled);
        proof {
            lemma_review_run_step(m0, e0, lines, cancelled);
        }
        match step {
            ReviewStep::Done(result) => {
                assert(review_run(m0, e0, lines, cancelled) == (outcome_view(result), Seq::<char>::empty()));
                assert(written@ + Seq::<char>::empty() == written@);
                return (result, written);
            },
            ReviewStep::Write(t) => {
                let ghost next = review_run(state.message@, opt_view(state.editing), lines.drop_first(), cancelled);
                assert(review_run(m0, e0, lines, cancelled) == (next.0, t@ + next.1));
                written.append(t.as_str());
                assert(written@ + next.1 == before + (t@ + next.1));
                pos = pos + end;
            },
        }
    }
}

pub open spec fn line_view(line: Option<&str>) -> Option<Seq<char>> {
    match line {
        Some(l) => Some(l@),
        None => None,
    }
}

impl Review {
    /// A review of `message`, and the prompt to write first.
    pub fn start(message: String) -> (r: (Review, String))
        ensures
            r.0.message == message,
            r.0.editing is None,
            r.1@ == prompt(),
    {
        (Review { message, editing: None }, String::from_str("[Enter/s] confirmar, [e] editar, [n] cancelar: "))
    }

    /// Takes the next input line (`None` at the end of input).
    pub fn advance(&mut self, line: Option<&str>, cancelled: bool) -> (r: ReviewStep)
        ensures
            ({
                let (m, e, s) = review_step(
                    old(self).message@,
                    opt_view(old(self).editing),
                    line_view(line),
                    cancelled,
                );
                final(self).message@ == m && opt_view(final(self).editing) == e && step_view(r) == s
            }),
    {
        reveal(review_step);
        let line = match line {
            None => return ReviewStep::Done(Ok(None)),
            Some(line) => line,
        };
        if cancelled {
            return ReviewStep::Done(Ok(None));
        }
        let chars = chars_of(line);
        match self.editing.take() {
            None => {
                if answer_is_word(&chars, "") || answer_is_word(&chars, "s") || answer_is_word(&chars, "sim") {
                    ReviewStep::Done(Ok(Some(self.message.clone())))
                } else if answer_is_word(&chars, "n") || answer_is_word(&chars, "não") || answer_is_word(&chars, "nao") {
                    ReviewStep::Done(Ok(None))
                } else if answer_is_word(&chars, "e") {
                    self.editing = Some(String::new());
                    ReviewStep::Write(String::from_str(
                        "Digite a mensagem completa. Termine com uma linha contendo apenas um ponto (.).\n",
                    ))
                } else {
                    let mut out = String::from_str("Escolha s, e ou n.\n");
                    out.append("[Enter/s] confirmar, [e] editar, [n] cancelar: ");
                    ReviewStep::Write(out)
                }
            },
            Some(edited) => {
                if ends_edit_line(&chars) {
                    match validate(edited.as_str()) {
                        Ok(valid) => {
                            let mut out = String::from_str("\nMensagem revisada:\n\n");
                            out.append(valid.as_str());
                            out.append("\n\n");
                            out.append("[Enter/s] confirmar, [e] editar, [n] cancelar: ");
                            self.message = valid;
                            ReviewStep::Write(out)
                        },
                        Err(e) => {
                            let mut out = String::from_str("Mensagem inválida: ");
                            out.append(e.as_str());
                            out.append("\nA mensagem anterior foi mantida.\n");
                            out.append("[Enter/s] confirmar, [e] editar, [n] cancelar: ");
                            ReviewStep::Write(out)
                        },
                    }
                } else {
                    let mut edited = edited;
                    edited.append(line);
                    let grown = chars_of(edited.as_str());
                    let over = exceeds_utf8_len(&grown, MAX_MESSAGE_BYTES);
                    self.editing = Some(edited);
                    if over {
                        ReviewStep::Done(Err(String::from_str("a mensagem editada excede 16 KiB.")))
                    } else {
                        ReviewStep::Write(String::new())
                    }
                }
            },
        }
    }
}

/// A cancelled review never confirms a message: whatever the input, it ends with nothing
/// confirmed.
pub proof fn lemma_cancelled_review_confirms_nothing(message: Seq<char>, lines: Seq<Seq<char>>)
    ensures
        review_run(message, None, lines, true).0 == Ok::<Option<Seq<char>>, Seq<char>>(None),
{
    reveal(review_run);
    reveal(review_step);
}

/// The end of the input never confirms a message: a review left without an answer ends
/// with nothing confirmed.
pub proof fn lemma_end_of_input_confirms_nothing(message: Seq<char>, editing: Option<Seq<char>>, cancelled: bool)
    ensures
        review_run(message, editing, Seq::empty(), cancelled).0 == Ok::<Option<Seq<char>>, Seq<char>>(None),
{
    reveal(review_run);
    reveal(review_step);
}

/// What a review confirms is the proposed message or an edit that passed validation, and
/// then it passes again unchanged.
pub proof fn lemma_confirmed_message_is_proposed_or_valid(
    proposed: Seq<char>,
    message: Seq<char>,
    editing: Option<Seq<char>>,
    lines: Seq<Seq<char>>,
    cancelled: bool,
)
    requires
        message == proposed || validation(message) == Ok::<Seq<char>, Seq<char>>(message),
    ensures
        review_run(message, editing, lines, cancelled).0 matches Ok(Some(x)) ==> x == proposed || validation(x)
            == Ok::<Seq<char>, Seq<char>>(x),
    decreases lines.len(),
{
    reveal(review_run);
    reveal(review_step);
    if lines.len() > 0 {
        let (m, e, s) = review_step(message, editing, Some(lines[0]), cancelled);
        if let Some(edited) = editing {
            if let Ok(valid) = validation(edited) {
                crate::message::lemma_validation_idempotent(edited);
            }
        }
        assert(m == proposed || validation(m) == Ok::<Seq<char>, Seq<char>>(m));
        lemma_confirmed_message_is_proposed_or_valid(proposed, m, e, lines.drop_first(), cancelled);
    }
}

pub open spec fn terminal_error() -> Seq<char> {
    "a confirmação exige um terminal. Use --dry-run ou --yes."@
}

/// Requires a terminal for the confirmation unless the run only previews (`--dry-run`) or
/// confirms up front (`--yes`).
pub fn confirmation_mode(dry_run: bool, yes: bool, terminal: bool) -> (r: Result<(), String>)
    ensures
        r is Ok <==> dry_run || yes || terminal,
        r matches Err(e) ==> e@ == terminal_error(),
{
    if !dry_run && !yes && !terminal {
        return Err(String::from_str("a confirmação exige um terminal. Use --dry-run ou --yes."));
    }
    Ok(())
}

} // verus!
