//! The project's own checks, which run on a clean copy of a commit before it is sent:
//! their configuration and the rule that they may not rewrite the copy.
use vstd::prelude::*;
use vstd::string::*;
use vstd::utf8::{decode_utf8, valid_utf8};
use crate::git::bytes_result;
use crate::message::text_result;
use crate::text::{chars_of, has_char, has_char_in, is_blank, same_chars, trim, utf8_text};

verus! {

pub open spec fn config_missing_error(e: Seq<char>) -> Seq<char> {
    "a mudança selecionada precisa conter clean-dev-cycle.toml. "@ + e
}

pub open spec fn config_not_utf8_error() -> Seq<char> {
    "clean-dev-cycle.toml deve estar em UTF-8."@
}

/// The configuration text of a commit, from what `git show <commit>:clean-dev-cycle.toml`
/// printed (or that read's error).
pub open spec fn config_text(read: Result<Seq<u8>, Seq<char>>) -> Result<Seq<char>, Seq<char>> {
    match read {
        Err(e) => Err(config_missing_error(e)),
        Ok(bytes) => if valid_utf8(bytes) {
            Ok(decode_utf8(bytes))
        } else {
            Err(config_not_utf8_error())
        },
    }
}

/// The configuration text of a commit (see `config_text`).
pub fn configuration(read: Result<Vec<u8>, String>) -> (r: Result<String, String>)
    ensures
        text_result(r) == config_text(bytes_result(read)),
{
    match read {
        Err(e) => {
            let mut m = String::from_str("a mudança selecionada precisa conter clean-dev-cycle.toml. ");
            m.append(e.as_str());
            Err(m)
        },
        Ok(bytes) => match utf8_text(bytes.as_slice()) {
            Some(t) => Ok(t),
            None => Err(String::from_str("clean-dev-cycle.toml deve estar em UTF-8.")),
        },
    }
}

pub open spec fn invalid_config_error(e: Seq<char>) -> Seq<char> {
    "clean-dev-cycle.toml inválido: "@ + e
}

pub open spec fn no_commands_error() -> Seq<char> {
    "clean-dev-cycle.toml deve definir checks.commands como uma lista não vazia."@
}

pub open spec fn entry_error() -> Seq<char> {
    "cada check deve ser uma lista com programa e argumentos."@
}

pub open spec fn argument_error() -> Seq<char> {
    "programa e argumentos dos checks devem ser textos sem NUL."@
}

pub open spec fn empty_program_error() -> Seq<char> {
    "o programa de um check não pode estar vazio."@
}

/// The view of `checks.commands` as the configuration holds it: `None` where it is not a
/// list; each entry `None` where it is not a list, each argument `None` where it is not
/// text.
pub open spec fn entries_view(entries: Option<Vec<Option<Vec<Option<String>>>>>) -> Option<Seq<Option<Seq<Option<Seq<char>>>>>> {
    match entries {
        None => None,
        Some(v) => Some(v@.map_values(|e: Option<Vec<Option<String>>>| entry_view(e))),
    }
}

pub open spec fn arg_view(a: Option<String>) -> Option<Seq<char>> {
    match a {
        None => None,
        Some(t) => Some(t@),
    }
}

pub open spec fn entry_view(e: Option<Vec<Option<String>>>) -> Option<Seq<Option<Seq<char>>>> {
    match e {
        None => None,
        Some(args) => Some(args@.map_values(|a: Option<String>| arg_view(a))),
    }
}

/// The first problem of one check's arguments: each must be text without NUL.
pub open spec fn arguments_problem(args: Seq<Option<Seq<char>>>) -> bool {
    exists|i: int| 0 <= i < args.len() && match #[trigger] args[i] {
        None => true,
        Some(t) => has_char(t, '\0'),
    }
}

/// The verdict on one check: a non-empty list of texts without NUL whose program is not
/// blank.
pub open spec fn entry_verdict(entry: Option<Seq<Option<Seq<char>>>>) -> Result<Seq<Seq<char>>, Seq<char>> {
    match entry {
        None => Err(entry_error()),
        Some(args) => if args.len() == 0 {
            Err(entry_error())
        } else if arguments_problem(args) {
            Err(argument_error())
        } else if trim(args[0].unwrap()).len() == 0 {
            Err(empty_program_error())
        } else {
            Ok(args.map_values(|a: Option<Seq<char>>| a.unwrap()))
        },
    }
}

/// The checks of a configuration, in order, from `checks.commands` (or the error of
/// parsing the configuration): a non-empty list, each check valid, the first invalid one
/// refused.
pub open spec fn commands_from(entries: Seq<Option<Seq<Option<Seq<char>>>>>) -> Result<Seq<Seq<Seq<char>>>, Seq<char>>
    decreases entries.len(),
{
    if entries.len() == 0 {
        Ok(Seq::empty())
    } else {
        match entry_verdict(entries[0]) {
            Err(e) => Err(e),
            Ok(args) => match commands_from(entries.drop_first()) {
                Err(e) => Err(e),
                Ok(more) => Ok(seq![args] + more),
            },
        }
    }
}

pub open spec fn commands_verdict(parsed: Result<Option<Seq<Option<Seq<Option<Seq<char>>>>>>, Seq<char>>) -> Result<
    Seq<Seq<Seq<char>>>,
    Seq<char>,
> {
    match parsed {
        Err(e) => Err(invalid_config_error(e)),
        Ok(None) => Err(no_commands_error()),
        Ok(Some(entries)) => if entries.len() == 0 {
            Err(no_commands_error())
        } else {
            commands_from(entries)
        },
    }
}

pub open spec fn commands_view(v: Seq<Vec<String>>) -> Seq<Seq<Seq<char>>> {
    v.map_values(|c: Vec<String>| c@.map_values(|a: String| a@))
}

fn check_entry(entry: &Option<Vec<Option<String>>>) -> (r: Result<Vec<String>, String>)
    ensures
        match r {
            Ok(args) => entry_verdict(entry_view(*entry)) == Ok::<Seq<Seq<char>>, Seq<char>>(args@.map_values(|a: String| a@)),
            Err(e) => entry_verdict(entry_view(*entry)) == Err::<Seq<Seq<char>>, Seq<char>>(e@),
        },
{
    let args = match entry {
        None => return Err(String::from_str("cada check deve ser uma lista com programa e argumentos.")),
        Some(a) => a,
    };
    if args.len() == 0 {
        return Err(String::from_str("cada check deve ser uma lista com programa e argumentos."));
    }
    let ghost view = args@.map_values(|a: Option<String>| arg_view(a));
    assert(entry_view(*entry) == Some(view));
    let mut out: Vec<String> = Vec::new();
    let mut i: usize = 0;
    while i < args.len()
        invariant
            i <= args@.len(),
            view == args@.map_values(|a: Option<String>| arg_view(a)),
            *entry == Some(*args),
            entry_view(*entry) == Some(view),
            view.len() > 0,
            out@.len() == i,
            forall|k: int| 0 <= k < i ==> #[trigger] view[k] == Some(out@[k]@) && !has_char(out@[k]@, '\0'),
        decreases args.len() - i,
    {
        match &args[i] {
            None => {
                assert(arguments_problem(view)) by {
                    assert(view[i as int] is None);
                }
                return Err(String::from_str("programa e argumentos dos checks devem ser textos sem NUL."));
            },
            Some(t) => {
                if has_char_in(&chars_of(t.as_str()), '\0') {
                    assert(arguments_problem(view)) by {
                        assert(view[i as int] == Some(t@));
                    }
                    return Err(String::from_str("programa e argumentos dos checks devem ser textos sem NUL."));
                }
                let ghost before = out@;
                out.push(t.clone());
                assert forall|k: int| 0 <= k < i + 1 implies #[trigger] view[k] == Some(out@[k]@) && !has_char(out@[k]@, '\0') by {
                    if k < i {
                        assert(out@[k] == before[k]);
                    }
                }
            },
        }
        i += 1;
    }
    assert(!arguments_problem(view)) by {
        if arguments_problem(view) {
            let j = choose|j: int| 0 <= j < view.len() && match #[trigger] view[j] {
                None => true,
                Some(t) => has_char(t, '\0'),
            };
            assert(view[j] == Some(out@[j]@));
        }
    }
    assert(view[0] == Some(out@[0]@));
    if is_blank(&chars_of(out[0].as_str())) {
        return Err(String::from_str("o programa de um check não pode estar vazio."));
    }
    assert(view.map_values(|a: Option<Seq<char>>| a.unwrap()) =~= out@.map_values(|a: String| a@));
    Ok(out)
}

/// What parsing a configuration gave, as plain values: its error, or `checks.commands`.
pub open spec fn parsed_view(parsed: Result<Option<Vec<Option<Vec<Option<String>>>>>, String>) -> Result<Option<Seq<Option<Seq<Option<Seq<char>>>>>>, Seq<char>> {
    match parsed {
        Ok(p) => Ok(entries_view(p)),
        Err(e) => Err(e@),
    }
}

/// What the `toml` crate reads of `text` as a table: the text of its error, or what the
/// table holds under `checks.commands` (`None` where that is missing or not an array;
/// each entry `None` where it is not an array, each argument `None` where it is not a
/// string).
pub uninterp spec fn toml_check_commands(text: Seq<char>) -> Result<Option<Seq<Option<Seq<Option<Seq<char>>>>>>, Seq<char>>;

/// Parses `text` with `toml` as a `toml::Table` and reads `checks.commands` from it with
/// `get` and `as_array`/`as_str`. The contract names the result.
#[verifier::external_body]
fn parse_check_commands(text: &str) -> (r: Result<Option<Vec<Option<Vec<Option<String>>>>>, String>)
    ensures
        parsed_view(r) == toml_check_commands(text@),
{
    text.parse::<toml::Table>().map_err(|e| e.to_string()).map(|table| {
        table.get("checks").and_then(|v| v.get("commands")).and_then(toml::Value::as_array).map(|entries| {
            entries.iter().map(|e| e.as_array().map(|args| args.iter().map(|a| a.as_str().map(str::to_owned)).collect())).collect()
        })
    })
}

/// The checks that the configuration text `text` defines (see `commands_verdict`).
pub fn commands_of(text: &str) -> (r: Result<Vec<Vec<String>>, String>)
    ensures
        match r {
            Ok(v) => commands_verdict(toml_check_commands(text@)) == Ok::<Seq<Seq<Seq<char>>>, Seq<char>>(commands_view(v@)),
            Err(e) => commands_verdict(toml_check_commands(text@)) == Err::<Seq<Seq<Seq<char>>>, Seq<char>>(e@),
        },
{
    commands(parse_check_commands(text))
}

/// The checks of a configuration (see `commands_verdict`), from what parsing it gave:
/// its error, or `checks.commands` as the configuration holds it.
pub fn commands(parsed: Result<Option<Vec<Option<Vec<Option<String>>>>>, String>) -> (r: Result<Vec<Vec<String>>, String>)
    ensures
        match r {
            Ok(v) => commands_verdict(parsed_view(parsed)) == Ok::<Seq<Seq<Seq<char>>>, Seq<char>>(commands_view(v@)),
            Err(e) => commands_verdict(parsed_view(parsed)) == Err::<Seq<Seq<Seq<char>>>, Seq<char>>(e@),
        },
{
    let entries = match parsed {
        Err(e) => {
            let mut m = String::from_str("clean-dev-cycle.toml inválido: ");
            m.append(e.as_str());
            return Err(m);
        },
        Ok(None) => return Err(String::from_str("clean-dev-cycle.toml deve definir checks.commands como uma lista não vazia.")),
        Ok(Some(v)) => v,
    };
    if entries.len() == 0 {
        return Err(String::from_str("clean-dev-cycle.toml deve definir checks.commands como uma lista não vazia."));
    }
    let ghost all = entries@.map_values(|e: Option<Vec<Option<String>>>| entry_view(e));
    let mut out: Vec<Vec<String>> = Vec::new();
    let mut i: usize = 0;
    assert(all.skip(0) == all);
    assert(commands_view(out@) =~= Seq::<Seq<Seq<char>>>::empty());
    while i < entries.len()
        invariant
            i <= entries@.len(),
            all == entries@.map_values(|e: Option<Vec<Option<String>>>| entry_view(e)),
            parsed == Ok::<Option<Vec<Option<Vec<Option<String>>>>>, String>(Some(entries)),
            entries@.len() > 0,
            commands_from(all) == match commands_from(all.skip(i as int)) {
                Err(e) => Err(e),
                Ok(more) => Ok(commands_view(out@) + more),
            },
        decreases entries.len() - i,
    {
        let ghost rest = all.skip(i as int);
        assert(rest[0] == entry_view(entries@[i as int]));
        assert(rest.drop_first() == all.skip(i + 1));
        let args = check_entry(&entries[i])?;
        let ghost before = commands_view(out@);
        out.push(args);
        assert(commands_view(out@) =~= before.push(args@.map_values(|a: String| a@)));
        proof {
            match commands_from(all.skip(i + 1)) {
                Err(_) => {},
                Ok(more) => {
                    assert(before + (seq![args@.map_values(|a: String| a@)] + more) =~= commands_view(out@) + more);
                },
            }
        }
        i += 1;
    }
    assert(all.skip(i as int) =~= Seq::<Option<Seq<Option<Seq<char>>>>>::empty());
    assert(commands_view(out@) + Seq::<Seq<Seq<char>>>::empty() =~= commands_view(out@));
    Ok(out)
}

pub open spec fn rewritten_error() -> Seq<char> {
    "um check alterou arquivos versionados, o índice ou o commit da cópia. Use verificações que não reescrevam arquivos."@
}

/// The verdict after a check ran on the copy of `revision`: the copy's `HEAD` (or the
/// error of resolving it) must still be `revision`, then `git status --porcelain
/// --untracked-files=no` (or its error) must print nothing.
pub open spec fn copy_verdict(head: Result<Seq<char>, Seq<char>>, revision: Seq<char>, status: Result<Seq<u8>, Seq<char>>) -> Result<(), Seq<char>> {
    match head {
        Err(e) => Err(e),
        Ok(h) => if h != revision {
            Err(rewritten_error())
        } else {
            match status {
                Err(e) => Err(e),
                Ok(s) => if s.len() > 0 {
                    Err(rewritten_error())
                } else {
                    Ok(())
                },
            }
        },
    }
}

/// Requires a check to have left the copy of `revision` as it was (see `copy_verdict`).
pub fn ensure_copy_unchanged(head: Result<String, String>, revision: &str, status: Result<Vec<u8>, String>) -> (r: Result<(), String>)
    ensures
        match r {
            Ok(()) => copy_verdict(text_result(head), revision@, bytes_result(status)) == Ok::<(), Seq<char>>(()),
            Err(e) => copy_verdict(text_result(head), revision@, bytes_result(status)) == Err::<(), Seq<char>>(e@),
        },
{
    let h = head?;
    if !same_chars(&chars_of(h.as_str()), &chars_of(revision)) {
        return Err(String::from_str(
            "um check alterou arquivos versionados, o índice ou o commit da cópia. Use verificações que não reescrevam arquivos.",
        ));
    }
    let s = status?;
    if s.len() > 0 {
        return Err(String::from_str(
            "um check alterou arquivos versionados, o índice ou o commit da cópia. Use verificações que não reescrevam arquivos.",
        ));
    }
    Ok(())
}

} // verus!
