//! Laws of the command line for the `changelog` command.
use vstd::prelude::*;
use crate::cli::{
    default_options, initial_scan, lemma_option_names, parse_spec, scan, value_arg, ActionView, ArgView, OptionsView,
    ScanState,
};

verus! {

proof fn lemma_changelog_names()
    ensures
        "changelog"@ != "commit"@ && "changelog"@ != "submit"@ && "changelog"@ != "check-commit"@,
        "changelog"@ != "-h"@ && "changelog"@ != "--help"@ && "changelog"@ != "-V"@ && "changelog"@ != "--version"@,
        "--context-file"@ != "--dry-run"@ && "--context-file"@ != "--yes"@ && "--context-file"@ != "--from"@
            && "--context-file"@ != "--to"@ && "--context-file"@ != "--message-file"@ && "--context-file"@ != "--entry-file"@
            && "--context-file"@ != "--revision"@,
        "--model"@ != "--dry-run"@ && "--model"@ != "--yes"@ && "--model"@ != "--from"@ && "--model"@ != "--to"@ && "--model"@
            != "--message-file"@ && "--model"@ != "--entry-file"@ && "--model"@ != "--revision"@ && "--model"@
            != "--context-file"@,
        "--codex"@ != "--dry-run"@ && "--codex"@ != "--yes"@ && "--codex"@ != "--from"@ && "--codex"@ != "--to"@ && "--codex"@
            != "--message-file"@ && "--codex"@ != "--entry-file"@ && "--codex"@ != "--revision"@ && "--codex"@
            != "--context-file"@ && "--codex"@ != "--model"@,
        "--entry-file"@ != "--dry-run"@ && "--entry-file"@ != "--yes"@ && "--entry-file"@ != "--from"@ && "--entry-file"@
            != "--to"@ && "--entry-file"@ != "--message-file"@,
        "--from"@ != "--yes"@ && "--to"@ != "--yes"@ && "--from"@ != "--dry-run"@ && "--to"@ != "--dry-run"@,
{
    reveal_strlit("changelog");
    reveal_strlit("commit");
    reveal_strlit("submit");
    reveal_strlit("check-commit");
    reveal_strlit("-h");
    reveal_strlit("--help");
    reveal_strlit("-V");
    reveal_strlit("--version");
    reveal_strlit("--dry-run");
    reveal_strlit("--yes");
    reveal_strlit("--from");
    reveal_strlit("--to");
    reveal_strlit("--message-file");
    reveal_strlit("--entry-file");
    reveal_strlit("--revision");
    reveal_strlit("--context-file");
    reveal_strlit("--model");
    reveal_strlit("--codex");
    assert("changelog"@.len() != "commit"@.len() && "changelog"@[1] != "submit"@[1] && "changelog"@.len() != "check-commit"@.len());
    assert("changelog"@.len() != "-h"@.len() && "changelog"@[0] != "--help"@[0] && "changelog"@.len() != "-V"@.len()
        && "changelog"@[0] != "--version"@[0]);
    assert("--context-file"@.len() != "--dry-run"@.len() && "--context-file"@.len() != "--yes"@.len()
        && "--context-file"@.len() != "--from"@.len() && "--context-file"@.len() != "--to"@.len()
        && "--context-file"@[2] != "--message-file"@[2] && "--context-file"@.len() != "--entry-file"@.len()
        && "--context-file"@.len() != "--revision"@.len());
    assert("--model"@.len() != "--dry-run"@.len() && "--model"@.len() != "--yes"@.len() && "--model"@.len() != "--from"@.len()
        && "--model"@.len() != "--to"@.len() && "--model"@.len() != "--message-file"@.len() && "--model"@.len()
        != "--entry-file"@.len() && "--model"@.len() != "--revision"@.len() && "--model"@.len() != "--context-file"@.len());
    assert("--codex"@.len() != "--dry-run"@.len() && "--codex"@.len() != "--yes"@.len() && "--codex"@.len() != "--from"@.len()
        && "--codex"@.len() != "--to"@.len() && "--codex"@.len() != "--message-file"@.len() && "--codex"@.len()
        != "--entry-file"@.len() && "--codex"@.len() != "--revision"@.len() && "--codex"@.len() != "--context-file"@.len()
        && "--codex"@[2] != "--model"@[2]);
    assert("--entry-file"@.len() != "--dry-run"@.len() && "--entry-file"@.len() != "--yes"@.len() && "--entry-file"@.len()
        != "--from"@.len() && "--entry-file"@.len() != "--to"@.len() && "--entry-file"@.len() != "--message-file"@.len());
    assert("--from"@.len() != "--yes"@.len() && "--to"@.len() != "--yes"@.len() && "--from"@.len() != "--dry-run"@.len()
        && "--to"@.len() != "--dry-run"@.len());
}

proof fn lemma_changelog_context_file(a: ArgView, b: ArgView, v: ArgView)
    requires
        value_arg(a),
        value_arg(b),
        value_arg(v),
    ensures
        parse_spec(seq![ArgView::Text("changelog"@), ArgView::Text("--from"@), a, ArgView::Text("--to"@), b, ArgView::Text("--context-file"@), v])
            == Ok::<ActionView, Seq<char>>(ActionView::Changelog(a, b, None, OptionsView { context_file: Some(v), ..default_options() })),
{
    lemma_option_names();
    lemma_changelog_names();
    let c = "changelog"@;
    let cl = ArgView::Text(c);
    let fr = ArgView::Text("--from"@);
    let to = ArgView::Text("--to"@);
    let n = ArgView::Text("--context-file"@);
    let e = Seq::<ArgView>::empty();
    let st0 = initial_scan();
    let st1 = ScanState { seen: e.push(fr), from: Some(a), ..st0 };
    let st2 = ScanState { seen: st1.seen.push(to), to: Some(b), ..st1 };
    let st3 = ScanState { seen: st2.seen.push(n), generation: OptionsView { context_file: Some(v), ..st2.generation }, ..st2 };
    assert(!e.contains(fr));
    assert(!st1.seen.contains(to)) by {
        assert(st1.seen[0] == fr);
    }
    assert(!st2.seen.contains(n)) by {
        if st2.seen.contains(n) {
            let j = choose|j: int| 0 <= j < st2.seen.len() && st2.seen[j] == n;
            assert(st2.seen[0] == fr && st2.seen[1] == to);
        }
    }
    assert(seq![n, v].skip(2) =~= e);
    assert(scan(c, e, st3) == Ok::<ScanState, Seq<char>>(st3));
    assert(scan(c, seq![n, v], st2) == scan(c, e, st3));
    assert(seq![to, b, n, v].skip(2) =~= seq![n, v]);
    assert(scan(c, seq![to, b, n, v], st1) == scan(c, seq![n, v], st2));
    assert(seq![fr, a, to, b, n, v].skip(2) =~= seq![to, b, n, v]);
    assert(scan(c, seq![fr, a, to, b, n, v], st0) == scan(c, seq![to, b, n, v], st1));
    let args = seq![cl, fr, a, to, b, n, v];
    assert(args.drop_first() =~= seq![fr, a, to, b, n, v]);
    
}

proof fn lemma_changelog_model(a: ArgView, b: ArgView, v: ArgView)
    requires
        value_arg(a),
        value_arg(b),
        value_arg(v),
    ensures
        parse_spec(seq![ArgView::Text("changelog"@), ArgView::Text("--from"@), a, ArgView::Text("--to"@), b, ArgView::Text("--model"@), v])
            == Ok::<ActionView, Seq<char>>(ActionView::Changelog(a, b, None, OptionsView { model: Some(v), ..default_options() })),
{
    lemma_option_names();
    lemma_changelog_names();
    let c = "changelog"@;
    let cl = ArgView::Text(c);
    let fr = ArgView::Text("--from"@);
    let to = ArgView::Text("--to"@);
    let n = ArgView::Text("--model"@);
    let e = Seq::<ArgView>::empty();
    let st0 = initial_scan();
    let st1 = ScanState { seen: e.push(fr), from: Some(a), ..st0 };
    let st2 = ScanState { seen: st1.seen.push(to), to: Some(b), ..st1 };
    let st3 = ScanState { seen: st2.seen.push(n), generation: OptionsView { model: Some(v), ..st2.generation }, ..st2 };
    assert(!e.contains(fr));
    assert(!st1.seen.contains(to)) by {
        assert(st1.seen[0] == fr);
    }
    assert(!st2.seen.contains(n)) by {
        if st2.seen.contains(n) {
            let j = choose|j: int| 0 <= j < st2.seen.len() && st2.seen[j] == n;
            assert(st2.seen[0] == fr && st2.seen[1] == to);
        }
    }
    assert(seq![n, v].skip(2) =~= e);
    assert(scan(c, e, st3) == Ok::<ScanState, Seq<char>>(st3));
    assert(scan(c, seq![n, v], st2) == scan(c, e, st3));
    assert(seq![to, b, n, v].skip(2) =~= seq![n, v]);
    assert(scan(c, seq![to, b, n, v], st1) == scan(c, seq![n, v], st2));
    assert(seq![fr, a, to, b, n, v].skip(2) =~= seq![to, b, n, v]);
    assert(scan(c, seq![fr, a, to, b, n, v], st0) == scan(c, seq![to, b, n, v], st1));
    let args = seq![cl, fr, a, to, b, n, v];
    assert(args.drop_first() =~= seq![fr, a, to, b, n, v]);
    
}

proof fn lemma_changelog_codex(a: ArgView, b: ArgView, v: ArgView)
    requires
        value_arg(a),
        value_arg(b),
        value_arg(v),
    ensures
        parse_spec(seq![ArgView::Text("changelog"@), ArgView::Text("--from"@), a, ArgView::Text("--to"@), b, ArgView::Text("--codex"@), v])
            == Ok::<ActionView, Seq<char>>(ActionView::Changelog(a, b, None, OptionsView { codex: v, ..default_options() })),
{
    lemma_option_names();
    lemma_changelog_names();
    let c = "changelog"@;
    let cl = ArgView::Text(c);
    let fr = ArgView::Text("--from"@);
    let to = ArgView::Text("--to"@);
    let n = ArgView::Text("--codex"@);
    let e = Seq::<ArgView>::empty();
    let st0 = initial_scan();
    let st1 = ScanState { seen: e.push(fr), from: Some(a), ..st0 };
    let st2 = ScanState { seen: st1.seen.push(to), to: Some(b), ..st1 };
    let st3 = ScanState { seen: st2.seen.push(n), generation: OptionsView { codex: v, ..st2.generation }, ..st2 };
    assert(!e.contains(fr));
    assert(!st1.seen.contains(to)) by {
        assert(st1.seen[0] == fr);
    }
    assert(!st2.seen.contains(n)) by {
        if st2.seen.contains(n) {
            let j = choose|j: int| 0 <= j < st2.seen.len() && st2.seen[j] == n;
            assert(st2.seen[0] == fr && st2.seen[1] == to);
        }
    }
    assert(seq![n, v].skip(2) =~= e);
    assert(scan(c, e, st3) == Ok::<ScanState, Seq<char>>(st3));
    assert(scan(c, seq![n, v], st2) == scan(c, e, st3));
    assert(seq![to, b, n, v].skip(2) =~= seq![n, v]);
    assert(scan(c, seq![to, b, n, v], st1) == scan(c, seq![n, v], st2));
    assert(seq![fr, a, to, b, n, v].skip(2) =~= seq![to, b, n, v]);
    assert(scan(c, seq![fr, a, to, b, n, v], st0) == scan(c, seq![to, b, n, v], st1));
    let args = seq![cl, fr, a, to, b, n, v];
    assert(args.drop_first() =~= seq![fr, a, to, b, n, v]);
    
}

proof fn lemma_changelog_entry_file(a: ArgView, b: ArgView, v: ArgView)
    requires
        value_arg(a),
        value_arg(b),
        value_arg(v),
    ensures
        parse_spec(seq![ArgView::Text("changelog"@), ArgView::Text("--from"@), a, ArgView::Text("--to"@), b, ArgView::Text("--entry-file"@), v])
            == Ok::<ActionView, Seq<char>>(ActionView::Changelog(a, b, Some(v), default_options())),
{
    lemma_option_names();
    lemma_changelog_names();
    let c = "changelog"@;
    let cl = ArgView::Text(c);
    let fr = ArgView::Text("--from"@);
    let to = ArgView::Text("--to"@);
    let n = ArgView::Text("--entry-file"@);
    let e = Seq::<ArgView>::empty();
    let st0 = initial_scan();
    let st1 = ScanState { seen: e.push(fr), from: Some(a), ..st0 };
    let st2 = ScanState { seen: st1.seen.push(to), to: Some(b), ..st1 };
    let st3 = ScanState { seen: st2.seen.push(n), entry_file: Some(v), ..st2 };
    assert(!e.contains(fr));
    assert(!st1.seen.contains(to)) by {
        assert(st1.seen[0] == fr);
    }
    assert(!st2.seen.contains(n)) by {
        if st2.seen.contains(n) {
            let j = choose|j: int| 0 <= j < st2.seen.len() && st2.seen[j] == n;
            assert(st2.seen[0] == fr && st2.seen[1] == to);
        }
    }
    assert(seq![n, v].skip(2) =~= e);
    assert(scan(c, e, st3) == Ok::<ScanState, Seq<char>>(st3));
    assert(scan(c, seq![n, v], st2) == scan(c, e, st3));
    assert(seq![to, b, n, v].skip(2) =~= seq![n, v]);
    assert(scan(c, seq![to, b, n, v], st1) == scan(c, seq![n, v], st2));
    assert(seq![fr, a, to, b, n, v].skip(2) =~= seq![to, b, n, v]);
    assert(scan(c, seq![fr, a, to, b, n, v], st0) == scan(c, seq![to, b, n, v], st1));
    let args = seq![cl, fr, a, to, b, n, v];
    assert(args.drop_first() =~= seq![fr, a, to, b, n, v]);
    assert(!st3.seen.contains(ArgView::Text("--model"@)) && !st3.seen.contains(ArgView::Text("--codex"@))
        && !st3.seen.contains(ArgView::Text("--timeout"@))) by {
        reveal_strlit("--model");
        reveal_strlit("--codex");
        reveal_strlit("--timeout");
        reveal_strlit("--entry-file");
        assert(st3.seen[0] == fr && st3.seen[1] == to && st3.seen[2] == n && st3.seen.len() == 3);
        assert("--entry-file"@.len() != "--model"@.len() && "--entry-file"@.len() != "--codex"@.len()
            && "--entry-file"@.len() != "--timeout"@.len());
    }
}

/// `changelog` takes each of its generation options after the range: `--context-file`,
/// `--model` or `--codex` with its value gives the range and that value, the other options
/// at their defaults; `--entry-file` with its path gives the range and the notes file.
pub proof fn lemma_changelog_options(a: ArgView, b: ArgView, v: ArgView)
    requires
        value_arg(a),
        value_arg(b),
        value_arg(v),
    ensures
        parse_spec(
            seq![
                ArgView::Text("changelog"@),
                ArgView::Text("--from"@),
                a,
                ArgView::Text("--to"@),
                b,
                ArgView::Text("--context-file"@),
                v,
            ],
        ) == Ok::<ActionView, Seq<char>>(
            ActionView::Changelog(a, b, None, OptionsView { context_file: Some(v), ..default_options() }),
        ),
        parse_spec(
            seq![ArgView::Text("changelog"@), ArgView::Text("--from"@), a, ArgView::Text("--to"@), b, ArgView::Text("--model"@), v],
        ) == Ok::<ActionView, Seq<char>>(ActionView::Changelog(a, b, None, OptionsView { model: Some(v), ..default_options() })),
        parse_spec(
            seq![ArgView::Text("changelog"@), ArgView::Text("--from"@), a, ArgView::Text("--to"@), b, ArgView::Text("--codex"@), v],
        ) == Ok::<ActionView, Seq<char>>(ActionView::Changelog(a, b, None, OptionsView { codex: v, ..default_options() })),
        parse_spec(
            seq![
                ArgView::Text("changelog"@),
                ArgView::Text("--from"@),
                a,
                ArgView::Text("--to"@),
                b,
                ArgView::Text("--entry-file"@),
                v,
            ],
        ) == Ok::<ActionView, Seq<char>>(ActionView::Changelog(a, b, Some(v), default_options())),
{
    lemma_changelog_names();
    lemma_changelog_context_file(a, b, v);
    lemma_changelog_model(a, b, v);
    lemma_changelog_codex(a, b, v);
    lemma_changelog_entry_file(a, b, v);
}

} // verus!
