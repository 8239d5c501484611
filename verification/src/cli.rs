//! The command line: which flow to run and with which options.
use vstd::prelude::*;
use vstd::string::*;
use crate::process::{utf8_lossy, decode_lossy};
use crate::text::{chars_of, same_chars};

verus! {

pub const HELP: &'static str = "Uso: clean-dev-cycle <COMANDO> [OPÇÕES]

Comandos:
  commit          Revisar e concluir a mudança atual do Jujutsu (@).
  submit          Verificar e publicar uma mudança diretamente na main.
  check-commit    Validar mensagens de commit sem IA.
  changelog       Sintetizar um intervalo em Markdown, sem alterar arquivos.

Opções:
  -h, --help      Exibir ajuda.
  -V, --version   Exibir a versão.

Use clean-dev-cycle <COMANDO> --help para consultar cada fluxo.
";

pub const COMMIT_HELP: &'static str = "Uso: clean-dev-cycle commit [OPÇÕES]

Gera e revisa a descrição de @ no Jujutsu. Confirmar conclui a mudança
e abre a próxima, como jj commit. Use jj split para separar alterações.
A geração considera apenas o diff da mudança atual.

Opções:
  --dry-run              Exibir a proposta sem descrever ou concluir @ (usa IA).
  --yes                  Confirmar sem interação.
  --context-file CAMINHO Contexto UTF-8, até 16 KiB.
  --model MODELO         Modelo do Codex.
  --codex CAMINHO        Executável do Codex.
  --timeout SEGUNDOS     Prazo por chamada, padrão 120.
  -h, --help             Exibir ajuda.

Requer jj 0.45.1 no PATH e workspace Git colocated. A leitura do jj pode
salvar snapshots locais. O caminho sem IA é jj commit -m MENSAGEM.
";

pub const SUBMIT_HELP: &'static str = "Uso: clean-dev-cycle submit [--revision REV]

Atualiza origin e publica uma mudança concluída (padrão @-) na main.
A mudança deve ser filha direta de main@origin, sem conflitos ou merges.
Executa os checks de clean-dev-cycle.toml do commit em uma cópia temporária,
com limite de 15 minutos por comando. Falhas impedem o envio. O CI roda após o push.
Camadas anteriores devem ser enviadas primeiro. Não faz rebase automático.
Reenviar uma mudança já integrada é uma operação sem efeito.
";

pub const CHECK_HELP: &'static str = "Uso: clean-dev-cycle check-commit --message-file CAMINHO
     clean-dev-cycle check-commit --from REF --to REF

Valida o arquivo UTF-8 ou todos os commits em FROM..TO com o perfil fixo.
Não chama IA nem modifica o repositório. O modo arquivo funciona sem Git.
Intervalos exigem histórico completo. Um intervalo vazio é válido.
Saída: 0 para sucesso, 1 para falha, 2 para uso inválido.
";

pub const CHANGELOG_HELP: &'static str = "Uso: clean-dev-cycle changelog --from REF --to REF [OPÇÕES]

Sintetiza o diff completo entre duas referências Git (FROM ancestral de TO).
Emite somente Markdown em stdout, sem alterar arquivos.
Use SHAs Git de mudanças jj concluídas. O intervalo exige histórico completo.

Opções:
  --entry-file CAMINHO   Fornecer síntese revisada sem IA, até 16 KiB.
  --context-file CAMINHO Contexto adicional UTF-8, até 16 KiB.
  --model MODELO         Modelo do Codex.
  --codex CAMINHO        Executável do Codex.
  --timeout SEGUNDOS     Prazo por chamada, padrão 120.
  -h, --help             Exibir ajuda.
";

/// A command-line argument: text, or the raw bytes of one that is not valid UTF-8.
#[derive(Debug)]
pub enum Argument {
    Text(String),
    Raw(Vec<u8>),
}

pub enum ArgView {
    Text(Seq<char>),
    Raw(Seq<u8>),
}

impl View for Argument {
    type V = ArgView;

    open spec fn view(&self) -> ArgView {
        match self {
            Argument::Text(s) => ArgView::Text(s@),
            Argument::Raw(b) => ArgView::Raw(b@),
        }
    }
}

pub open spec fn arg_text(a: ArgView) -> Option<Seq<char>> {
    match a {
        ArgView::Text(s) => Some(s),
        ArgView::Raw(_) => None,
    }
}

pub open spec fn arg_is_empty(a: ArgView) -> bool {
    match a {
        ArgView::Text(s) => s.len() == 0,
        ArgView::Raw(b) => b.len() == 0,
    }
}

/// Whether the argument, read with replacement of invalid UTF-8, starts with `-`.
pub open spec fn arg_starts_with_dash(a: ArgView) -> bool {
    match a {
        ArgView::Text(s) => s.len() > 0 && s[0] == '-',
        ArgView::Raw(b) => b.len() > 0 && b[0] == 45,
    }
}

/// The argument as text, invalid UTF-8 replaced (`to_string_lossy`).
pub open spec fn arg_lossy(a: ArgView) -> Seq<char> {
    match a {
        ArgView::Text(s) => s,
        ArgView::Raw(b) => utf8_lossy(b),
    }
}

pub open spec fn opt_arg(o: Option<Argument>) -> Option<ArgView> {
    match o {
        Some(a) => Some(a@),
        None => None,
    }
}

/// The options of the flows that generate text with the AI.
#[derive(Debug)]
pub struct Options {
    pub dry_run: bool,
    pub yes: bool,
    pub context_file: Option<Argument>,
    pub model: Option<Argument>,
    pub codex: Argument,
    pub timeout_seconds: u64,
}

pub struct OptionsView {
    pub dry_run: bool,
    pub yes: bool,
    pub context_file: Option<ArgView>,
    pub model: Option<ArgView>,
    pub codex: ArgView,
    pub timeout_seconds: u64,
}

impl View for Options {
    type V = OptionsView;

    open spec fn view(&self) -> OptionsView {
        OptionsView {
            dry_run: self.dry_run,
            yes: self.yes,
            context_file: opt_arg(self.context_file),
            model: opt_arg(self.model),
            codex: self.codex@,
            timeout_seconds: self.timeout_seconds,
        }
    }
}

/// What `check-commit` validates: a message file, or every commit of a range.
#[derive(Debug)]
pub enum CheckCommitInput {
    MessageFile(Argument),
    Range { from: Argument, to: Argument },
}

#[derive(Debug)]
pub struct CheckCommitOptions {
    pub input: CheckCommitInput,
}

#[derive(Debug)]
pub struct ChangelogOptions {
    pub from: Argument,
    pub to: Argument,
    pub entry_file: Option<Argument>,
    pub generation: Options,
}

/// What the command line asks for.
#[derive(Debug)]
pub enum Action {
    Help(&'static str),
    Version,
    Commit(Options),
    Submit(Argument),
    CheckCommit(CheckCommitOptions),
    Changelog(ChangelogOptions),
}

pub enum ActionView {
    Help(Seq<char>),
    Version,
    Commit(OptionsView),
    Submit(ArgView),
    CheckMessageFile(ArgView),
    CheckRange(ArgView, ArgView),
    Changelog(ArgView, ArgView, Option<ArgView>, OptionsView),
}

pub open spec fn action_view(a: Action) -> ActionView {
    match a {
        Action::Help(h) => ActionView::Help(h@),
        Action::Version => ActionView::Version,
        Action::Commit(o) => ActionView::Commit(o@),
        Action::Submit(r) => ActionView::Submit(r@),
        Action::CheckCommit(c) => match c.input {
            CheckCommitInput::MessageFile(p) => ActionView::CheckMessageFile(p@),
            CheckCommitInput::Range { from, to } => ActionView::CheckRange(from@, to@),
        },
        Action::Changelog(c) => ActionView::Changelog(c.from@, c.to@, opt_arg(c.entry_file), c.generation@),
    }
}

pub open spec fn parse_view(r: Result<Action, String>) -> Result<ActionView, Seq<char>> {
    match r {
        Ok(a) => Ok(action_view(a)),
        Err(e) => Err(e@),
    }
}

/// The options that each command accepts.
pub open spec fn allowed(command: Seq<char>, name: Seq<char>) -> bool {
    if command == "commit"@ {
        name == "--dry-run"@ || name == "--yes"@ || name == "--context-file"@ || name == "--model"@
            || name == "--codex"@ || name == "--timeout"@
    } else if command == "submit"@ {
        name == "--revision"@
    } else if command == "check-commit"@ {
        name == "--from"@ || name == "--to"@ || name == "--message-file"@
    } else if command == "changelog"@ {
        name == "--from"@ || name == "--to"@ || name == "--entry-file"@ || name == "--context-file"@
            || name == "--model"@ || name == "--codex"@ || name == "--timeout"@
    } else {
        false
    }
}

/// The help of a command, when it is one.
pub open spec fn command_help(command: Option<Seq<char>>) -> Option<Seq<char>> {
    match command {
        Some(c) => if c == "commit"@ {
            Some(COMMIT_HELP@)
        } else if c == "submit"@ {
            Some(SUBMIT_HELP@)
        } else if c == "check-commit"@ {
            Some(CHECK_HELP@)
        } else if c == "changelog"@ {
            Some(CHANGELOG_HELP@)
        } else {
            None
        },
        None => None,
    }
}

pub open spec fn is_digit(c: char) -> bool {
    '0' <= c && c <= '9'
}

pub open spec fn all_digits(s: Seq<char>) -> bool {
    forall|i: int| 0 <= i < s.len() ==> #[trigger] is_digit(s[i])
}

/// The number that the decimal digits `s` write.
pub open spec fn digits_value(s: Seq<char>) -> nat
    decreases s.len(),
{
    if s.len() == 0 {
        0
    } else {
        digits_value(s.drop_last()) * 10 + ((s.last() as u32) - ('0' as u32)) as nat
    }
}

/// The number of seconds that a `--timeout` value gives: an optional `+` then decimal
/// digits (`u64::from_str`), between 1 and 3600.
pub open spec fn timeout_value(v: ArgView) -> Option<u64> {
    match arg_text(v) {
        None => None,
        Some(t) => {
            let d = if t.len() > 0 && t[0] == '+' {
                t.drop_first()
            } else {
                t
            };
            if d.len() > 0 && all_digits(d) && 1 <= digits_value(d) && digits_value(d) <= 3600 {
                Some(digits_value(d) as u64)
            } else {
                None
            }
        },
    }
}

/// The state of the option scan.
pub struct ScanState {
    pub generation: OptionsView,
    pub from: Option<ArgView>,
    pub to: Option<ArgView>,
    pub file: Option<ArgView>,
    pub entry_file: Option<ArgView>,
    pub revision: Option<ArgView>,
    pub seen: Seq<ArgView>,
}

pub open spec fn default_options() -> OptionsView {
    OptionsView {
        dry_run: false,
        yes: false,
        context_file: None,
        model: None,
        codex: ArgView::Text("codex"@),
        timeout_seconds: 120,
    }
}

pub open spec fn initial_scan() -> ScanState {
    ScanState {
        generation: default_options(),
        from: None,
        to: None,
        file: None,
        entry_file: None,
        revision: None,
        seen: Seq::empty(),
    }
}

pub open spec fn repeated_error(option: Seq<char>) -> Seq<char> {
    "opção repetida: "@ + option + "."@
}

pub open spec fn invalid_option_error() -> Seq<char> {
    "opção inválida."@
}

pub open spec fn unrecognized_error(name: Seq<char>) -> Seq<char> {
    "opção não reconhecida: "@ + name + "."@
}

pub open spec fn missing_value_error(name: Seq<char>) -> Seq<char> {
    "informe um valor para "@ + name + "."@
}

pub open spec fn timeout_error() -> Seq<char> {
    "--timeout deve ser um inteiro entre 1 e 3600."@
}

pub open spec fn unknown_command_error(command: Seq<char>) -> Seq<char> {
    "comando não reconhecido: "@ + command + "."@
}

pub open spec fn check_input_error() -> Seq<char> {
    "use --message-file CAMINHO ou --from REF --to REF, separadamente."@
}

pub open spec fn entry_with_ai_error() -> Seq<char> {
    "use --entry-file separadamente das opções de IA."@
}

pub open spec fn missing_from_error() -> Seq<char> {
    "informe --from REF."@
}

pub open spec fn missing_to_error() -> Seq<char> {
    "informe --to REF."@
}

/// The scan of the options `rest` of `command`, from the state `st`.
pub open spec fn scan(command: Seq<char>, rest: Seq<ArgView>, st: ScanState) -> Result<ScanState, Seq<char>>
    decreases rest.len(),
{
    if rest.len() == 0 {
        Ok(st)
    } else {
        let option = rest[0];
        if st.seen.contains(option) {
            Err(repeated_error(arg_lossy(option)))
        } else {
            let st1 = ScanState { seen: st.seen.push(option), ..st };
            match arg_text(option) {
                None => Err(invalid_option_error()),
                Some(name) => if !allowed(command, name) {
                    Err(unrecognized_error(name))
                } else if name == "--dry-run"@ {
                    scan(command, rest.drop_first(), ScanState { generation: OptionsView { dry_run: true, ..st1.generation }, ..st1 })
                } else if name == "--yes"@ {
                    scan(command, rest.drop_first(), ScanState { generation: OptionsView { yes: true, ..st1.generation }, ..st1 })
                } else if rest.len() < 2 || arg_is_empty(rest[1]) || arg_starts_with_dash(rest[1]) {
                    Err(missing_value_error(name))
                } else {
                    let v = rest[1];
                    let more = rest.skip(2);
                    if name == "--from"@ {
                        scan(command, more, ScanState { from: Some(v), ..st1 })
                    } else if name == "--to"@ {
                        scan(command, more, ScanState { to: Some(v), ..st1 })
                    } else if name == "--message-file"@ {
                        scan(command, more, ScanState { file: Some(v), ..st1 })
                    } else if name == "--entry-file"@ {
                        scan(command, more, ScanState { entry_file: Some(v), ..st1 })
                    } else if name == "--revision"@ {
                        scan(command, more, ScanState { revision: Some(v), ..st1 })
                    } else if name == "--context-file"@ {
                        scan(command, more, ScanState { generation: OptionsView { context_file: Some(v), ..st1.generation }, ..st1 })
                    } else if name == "--model"@ {
                        scan(command, more, ScanState { generation: OptionsView { model: Some(v), ..st1.generation }, ..st1 })
                    } else if name == "--codex"@ {
                        scan(command, more, ScanState { generation: OptionsView { codex: v, ..st1.generation }, ..st1 })
                    } else {
                        match timeout_value(v) {
                            None => Err(timeout_error()),
                            Some(t) => scan(command, more, ScanState { generation: OptionsView { timeout_seconds: t, ..st1.generation }, ..st1 }),
                        }
                    }
                },
            }
        }
    }
}

/// Whether the option `name` was given.
pub open spec fn was_given(st: ScanState, name: Seq<char>) -> bool {
    st.seen.contains(ArgView::Text(name))
}

/// The action that a command asks for once its options are scanned.
pub open spec fn finish_scan(command: Seq<char>, st: ScanState) -> Result<ActionView, Seq<char>> {
    if command == "commit"@ {
        Ok(ActionView::Commit(st.generation))
    } else if command == "submit"@ {
        Ok(ActionView::Submit(
            match st.revision {
                Some(r) => r,
                None => ArgView::Text("@-"@),
            },
        ))
    } else if command == "check-commit"@ {
        match (st.file, st.from, st.to) {
            (Some(p), None, None) => Ok(ActionView::CheckMessageFile(p)),
            (None, Some(f), Some(t)) => Ok(ActionView::CheckRange(f, t)),
            _ => Err(check_input_error()),
        }
    } else {
        if st.entry_file is Some && (was_given(st, "--model"@) || was_given(st, "--codex"@) || was_given(st, "--timeout"@)) {
            Err(entry_with_ai_error())
        } else {
            match st.from {
                None => Err(missing_from_error()),
                Some(f) => match st.to {
                    None => Err(missing_to_error()),
                    Some(t) => Ok(ActionView::Changelog(f, t, st.entry_file, st.generation)),
                },
            }
        }
    }
}

/// What the command line `args` (without the program name) asks for.
pub open spec fn parse_spec(args: Seq<ArgView>) -> Result<ActionView, Seq<char>> {
    if args.len() == 0 {
        Ok(ActionView::Help(HELP@))
    } else {
        let command = args[0];
        let rest = args.drop_first();
        let ct = arg_text(command);
        if rest.len() == 0 && (ct == Some("-h"@) || ct == Some("--help"@)) {
            Ok(ActionView::Help(HELP@))
        } else if rest.len() == 0 && (ct == Some("-V"@) || ct == Some("--version"@)) {
            Ok(ActionView::Version)
        } else {
            match command_help(ct) {
                None => Err(unknown_command_error(arg_lossy(command))),
                Some(help) => if rest.len() == 1 && (arg_text(rest[0]) == Some("-h"@) || arg_text(rest[0]) == Some("--help"@)) {
                    Ok(ActionView::Help(help))
                } else {
                    match scan(ct.unwrap(), rest, initial_scan()) {
                        Err(e) => Err(e),
                        Ok(st) => finish_scan(ct.unwrap(), st),
                    }
                },
            }
        }
    }
}

pub(crate) proof fn lemma_option_names()
    ensures
        "--dry-run"@ != "--timeout"@,
        "--yes"@ != "--timeout"@,
        "--from"@ != "--timeout"@,
        "--to"@ != "--timeout"@,
        "--message-file"@ != "--timeout"@,
        "--entry-file"@ != "--timeout"@,
        "--revision"@ != "--timeout"@,
        "--context-file"@ != "--timeout"@,
        "--model"@ != "--timeout"@,
        "--codex"@ != "--timeout"@,
        "--from"@ != "--to"@,
        "--from"@ != "--message-file"@,
        "--to"@ != "--message-file"@,
        "--dry-run"@ != "--from"@,
        "--dry-run"@ != "--to"@,
        "--dry-run"@ != "--message-file"@,
        "--yes"@ != "--from"@,
        "--yes"@ != "--to"@,
        "--yes"@ != "--message-file"@,
        "commit"@ != "submit"@,
        "commit"@ != "check-commit"@,
        "check-commit"@ != "submit"@,
        "commit"@ != "-h"@ && "commit"@ != "--help"@ && "commit"@ != "-V"@ && "commit"@ != "--version"@,
        "check-commit"@ != "-h"@ && "check-commit"@ != "--help"@ && "check-commit"@ != "-V"@ && "check-commit"@
            != "--version"@,
        "--timeout"@ != "-h"@ && "--timeout"@ != "--help"@,
        "--from"@ != "-h"@ && "--from"@ != "--help"@,
        "--to"@ != "-h"@ && "--to"@ != "--help"@,
        "--message-file"@ != "-h"@ && "--message-file"@ != "--help"@,
{
    reveal_strlit("--dry-run");
    reveal_strlit("--yes");
    reveal_strlit("--from");
    reveal_strlit("--to");
    reveal_strlit("--message-file");
    reveal_strlit("--entry-file");
    reveal_strlit("--revision");
    reveal_strlit("--context-file");
    reveal_strlit("--model");
    reveal_strlit("--codex");
    reveal_strlit("--timeout");
    reveal_strlit("commit");
    reveal_strlit("submit");
    reveal_strlit("check-commit");
    reveal_strlit("-h");
    reveal_strlit("--help");
    reveal_strlit("-V");
    reveal_strlit("--version");
    assert("--dry-run"@[2] != "--timeout"@[2]);
    assert("--yes"@.len() != "--timeout"@.len());
    assert("--from"@.len() != "--timeout"@.len());
    assert("--to"@.len() != "--timeout"@.len());
    assert("--message-file"@.len() != "--timeout"@.len());
    assert("--entry-file"@.len() != "--timeout"@.len());
    assert("--revision"@.len() != "--timeout"@.len());
    assert("--context-file"@.len() != "--timeout"@.len());
    assert("--model"@.len() != "--timeout"@.len());
    assert("--codex"@.len() != "--timeout"@.len());
    assert("--from"@.len() != "--to"@.len());
    assert("--from"@.len() != "--message-file"@.len());
    assert("--to"@.len() != "--message-file"@.len());
    assert("--dry-run"@.len() != "--from"@.len());
    assert("--dry-run"@.len() != "--to"@.len());
    assert("--dry-run"@.len() != "--message-file"@.len());
    assert("--yes"@[2] != "--from"@[2]);
    assert("--yes"@.len() != "--to"@.len());
    assert("--yes"@.len() != "--message-file"@.len());
    assert("commit"@[0] != "submit"@[0]);
    assert("commit"@.len() != "check-commit"@.len());
    assert("check-commit"@.len() != "submit"@.len());
    assert("commit"@.len() != "-h"@.len() && "commit"@[0] != "--help"@[0] && "commit"@.len() != "-V"@.len() && "commit"@[0]
        != "--version"@[0]);
    assert("check-commit"@.len() != "-h"@.len() && "check-commit"@[0] != "--help"@[0] && "check-commit"@.len() != "-V"@.len()
        && "check-commit"@[0] != "--version"@[0]);
    assert("--timeout"@.len() != "-h"@.len() && "--timeout"@[2] != "--help"@[2]);
    assert("--from"@.len() != "-h"@.len() && "--from"@[2] != "--help"@[2]);
    assert("--to"@.len() != "-h"@.len() && "--to"@.len() != "--help"@.len());
    assert("--message-file"@.len() != "-h"@.len() && "--message-file"@.len() != "--help"@.len());
}

/// Whether an argument can be an option's value: not empty and not starting with `-`.
pub open spec fn value_arg(a: ArgView) -> bool {
    !arg_is_empty(a) && !arg_starts_with_dash(a)
}

/// `--timeout` takes whole seconds from 1 to 3600 (an optional `+`, then decimal digits)
/// and nothing else, and changes nothing but the time limit; without it a call may take
/// 120 seconds, with the `codex` executable and no other option.
pub proof fn lemma_timeout_range(value: ArgView)
    ensures
        (parse_spec(seq![ArgView::Text("commit"@), ArgView::Text("--timeout"@), value]) is Ok) <==> timeout_value(value) is Some,
        timeout_value(value) matches Some(n) ==> 1 <= n <= 3600 && parse_spec(
            seq![ArgView::Text("commit"@), ArgView::Text("--timeout"@), value],
        ) == Ok::<ActionView, Seq<char>>(ActionView::Commit(OptionsView { timeout_seconds: n, ..default_options() })),
        parse_spec(seq![ArgView::Text("commit"@)]) == Ok::<ActionView, Seq<char>>(ActionView::Commit(default_options())),
{
    lemma_option_names();
    reveal_with_fuel(scan, 3);
    let args = seq![ArgView::Text("commit"@), ArgView::Text("--timeout"@), value];
    assert(args.drop_first() =~= seq![ArgView::Text("--timeout"@), value]);
    assert(args.drop_first().skip(2) =~= Seq::<ArgView>::empty());
    assert(!Seq::<ArgView>::empty().contains(ArgView::Text("--timeout"@)));
    if let Some(t) = arg_text(value) {
        let d = if t.len() > 0 && t[0] == '+' { t.drop_first() } else { t };
        if timeout_value(value) is Some {
            assert(d.len() > 0 && is_digit(d[0]));
            assert(t.len() > 0 && t[0] != '-');
        }
    }
    let one = seq![ArgView::Text("commit"@)];
    assert(one.drop_first() =~= Seq::<ArgView>::empty());
}

proof fn lemma_check_file(p: ArgView, a: ArgView)
    requires
        value_arg(p),
        value_arg(a),
    ensures
        parse_spec(seq![ArgView::Text("check-commit"@), ArgView::Text("--message-file"@), p]) == Ok::<ActionView, Seq<char>>(
            ActionView::CheckMessageFile(p),
        ),
        parse_spec(seq![ArgView::Text("check-commit"@), ArgView::Text("--message-file"@), p, ArgView::Text("--from"@), a])
            == Err::<ActionView, Seq<char>>(check_input_error()),
{
    lemma_option_names();
    reveal_with_fuel(scan, 3);
    let cc = ArgView::Text("check-commit"@);
    let mf = ArgView::Text("--message-file"@);
    let fr = ArgView::Text("--from"@);
    let e = Seq::<ArgView>::empty();
    assert(!e.contains(mf) && !e.contains(fr));
    assert(!e.push(mf).contains(fr)) by {
        assert(e.push(mf)[0] == mf);
    }
    let s1 = seq![cc, mf, p];
    assert(s1.drop_first() =~= seq![mf, p]);
    assert(seq![mf, p].skip(2) =~= e);
    let s7 = seq![cc, mf, p, fr, a];
    assert(s7.drop_first() =~= seq![mf, p, fr, a]);
    assert(seq![mf, p, fr, a].skip(2) =~= seq![fr, a]);
    assert(seq![fr, a].skip(2) =~= e);
}

#[verifier::rlimit(50)]
proof fn lemma_check_file_with_range(p: ArgView, a: ArgView, b: ArgView)
    requires
        value_arg(p),
        value_arg(a),
        value_arg(b),
    ensures
        parse_spec(seq![ArgView::Text("check-commit"@), ArgView::Text("--message-file"@), p, ArgView::Text("--to"@), b])
            == Err::<ActionView, Seq<char>>(check_input_error()),
        parse_spec(
            seq![
                ArgView::Text("check-commit"@),
                ArgView::Text("--message-file"@),
                p,
                ArgView::Text("--from"@),
                a,
                ArgView::Text("--to"@),
                b,
            ],
        ) == Err::<ActionView, Seq<char>>(check_input_error()),
{
    lemma_option_names();
    reveal_with_fuel(scan, 4);
    let cc = ArgView::Text("check-commit"@);
    let mf = ArgView::Text("--message-file"@);
    let fr = ArgView::Text("--from"@);
    let to = ArgView::Text("--to"@);
    let e = Seq::<ArgView>::empty();
    assert(!e.contains(mf) && !e.contains(fr) && !e.contains(to));
    assert(!e.push(mf).contains(fr) && !e.push(mf).contains(to)) by {
        assert(e.push(mf)[0] == mf);
    }
    assert(!e.push(mf).push(fr).contains(to)) by {
        assert(e.push(mf).push(fr)[0] == mf);
        assert(e.push(mf).push(fr)[1] == fr);
    }
    let s1 = seq![cc, mf, p, to, b];
    assert(s1.drop_first() =~= seq![mf, p, to, b]);
    assert(seq![mf, p, to, b].skip(2) =~= seq![to, b]);
    assert(seq![to, b].skip(2) =~= e);
    let s2 = seq![cc, mf, p, fr, a, to, b];
    assert(s2.drop_first() =~= seq![mf, p, fr, a, to, b]);
    assert(seq![mf, p, fr, a, to, b].skip(2) =~= seq![fr, a, to, b]);
    assert(seq![fr, a, to, b].skip(2) =~= seq![to, b]);
}

#[verifier::rlimit(50)]
proof fn lemma_check_range(a: ArgView, b: ArgView, first: ArgView, second: ArgView)
    requires
        value_arg(a),
        value_arg(b),
        (first == ArgView::Text("--from"@) && second == ArgView::Text("--to"@)) || (first == ArgView::Text("--to"@) && second
            == ArgView::Text("--from"@)),
    ensures
        parse_spec(
            seq![ArgView::Text("check-commit"@), first, if first == ArgView::Text("--from"@) { a } else { b }, second, if first
                == ArgView::Text("--from"@) { b } else { a }],
        ) == Ok::<ActionView, Seq<char>>(ActionView::CheckRange(a, b)),
{
    lemma_option_names();
    reveal_with_fuel(scan, 3);
    let cc = ArgView::Text("check-commit"@);
    let x = if first == ArgView::Text("--from"@) { a } else { b };
    let y = if first == ArgView::Text("--from"@) { b } else { a };
    let e = Seq::<ArgView>::empty();
    assert(!e.contains(first));
    assert(!e.push(first).contains(second)) by {
        assert(e.push(first)[0] == first);
    }
    let s2 = seq![cc, first, x, second, y];
    assert(s2.drop_first() =~= seq![first, x, second, y]);
    assert(seq![first, x, second, y].skip(2) =~= seq![second, y]);
    assert(seq![second, y].skip(2) =~= e);
}

proof fn lemma_check_partial(a: ArgView, b: ArgView)
    requires
        value_arg(a),
        value_arg(b),
    ensures
        parse_spec(seq![ArgView::Text("check-commit"@), ArgView::Text("--from"@), a]) == Err::<ActionView, Seq<char>>(
            check_input_error(),
        ),
        parse_spec(seq![ArgView::Text("check-commit"@), ArgView::Text("--to"@), b]) == Err::<ActionView, Seq<char>>(
            check_input_error(),
        ),
        parse_spec(seq![ArgView::Text("check-commit"@)]) == Err::<ActionView, Seq<char>>(check_input_error()),
{
    lemma_option_names();
    reveal_with_fuel(scan, 2);
    let cc = ArgView::Text("check-commit"@);
    let fr = ArgView::Text("--from"@);
    let to = ArgView::Text("--to"@);
    let e = Seq::<ArgView>::empty();
    assert(!e.contains(fr) && !e.contains(to));
    let s4 = seq![cc, fr, a];
    assert(s4.drop_first() =~= seq![fr, a]);
    assert(seq![fr, a].skip(2) =~= e);
    let s5 = seq![cc, to, b];
    assert(s5.drop_first() =~= seq![to, b]);
    assert(seq![to, b].skip(2) =~= e);
    let s6 = seq![cc];
    assert(s6.drop_first() =~= e);
}

/// `check-commit` takes exactly `--message-file` with its path, or `--from` and `--to`
/// with their references, in either order; `--from` or `--to` alone, the file together
/// with a range, or nothing are refused.
pub proof fn lemma_check_commit_inputs(p: ArgView, a: ArgView, b: ArgView)
    requires
        value_arg(p),
        value_arg(a),
        value_arg(b),
    ensures
        parse_spec(seq![ArgView::Text("check-commit"@), ArgView::Text("--message-file"@), p]) == Ok::<ActionView, Seq<char>>(
            ActionView::CheckMessageFile(p),
        ),
        parse_spec(seq![ArgView::Text("check-commit"@), ArgView::Text("--from"@), a, ArgView::Text("--to"@), b]) == Ok::<
            ActionView,
            Seq<char>,
        >(ActionView::CheckRange(a, b)),
        parse_spec(seq![ArgView::Text("check-commit"@), ArgView::Text("--to"@), b, ArgView::Text("--from"@), a]) == Ok::<
            ActionView,
            Seq<char>,
        >(ActionView::CheckRange(a, b)),
        parse_spec(seq![ArgView::Text("check-commit"@), ArgView::Text("--from"@), a]) == Err::<ActionView, Seq<char>>(
            check_input_error(),
        ),
        parse_spec(seq![ArgView::Text("check-commit"@), ArgView::Text("--to"@), b]) == Err::<ActionView, Seq<char>>(
            check_input_error(),
        ),
        parse_spec(seq![ArgView::Text("check-commit"@)]) == Err::<ActionView, Seq<char>>(check_input_error()),
        parse_spec(seq![ArgView::Text("check-commit"@), ArgView::Text("--message-file"@), p, ArgView::Text("--from"@), a])
            == Err::<ActionView, Seq<char>>(check_input_error()),
        parse_spec(seq![ArgView::Text("check-commit"@), ArgView::Text("--message-file"@), p, ArgView::Text("--to"@), b])
            == Err::<ActionView, Seq<char>>(check_input_error()),
        parse_spec(
            seq![
                ArgView::Text("check-commit"@),
                ArgView::Text("--message-file"@),
                p,
                ArgView::Text("--from"@),
                a,
                ArgView::Text("--to"@),
                b,
            ],
        ) == Err::<ActionView, Seq<char>>(check_input_error()),
{
    lemma_option_names();
    lemma_check_file(p, a);
    lemma_check_file_with_range(p, a, b);
    lemma_check_range(a, b, ArgView::Text("--from"@), ArgView::Text("--to"@));
    lemma_check_range(a, b, ArgView::Text("--to"@), ArgView::Text("--from"@));
    lemma_check_partial(a, b);
}

fn arg_copy(a: &Argument) -> (r: Argument)
    ensures
        r@ == a@,
{
    match a {
        Argument::Text(s) => Argument::Text(s.clone()),
        Argument::Raw(b) => {
            let mut c: Vec<u8> = Vec::new();
            let mut i: usize = 0;
            while i < b.len()
                invariant
                    i <= b@.len(),
                    c@ == b@.take(i as int),
                decreases b.len() - i,
            {
                c.push(b[i]);
                assert(b@.take(i + 1) == b@.take(i as int).push(b@[i as int]));
                i += 1;
            }
            assert(b@.take(b@.len() as int) == b@);
            Argument::Raw(c)
        },
    }
}

fn same_bytes(a: &Vec<u8>, b: &Vec<u8>) -> (r: bool)
    ensures
        r == (a@ == b@),
{
    if a.len() != b.len() {
        return false;
    }
    let mut i: usize = 0;
    while i < a.len()
        invariant
            i <= a@.len(),
            a@.len() == b@.len(),
            forall|k: int| 0 <= k < i ==> a@[k] == b@[k],
        decreases a.len() - i,
    {
        if a[i] != b[i] {
            return false;
        }
        i += 1;
    }
    assert(a@ =~= b@);
    true
}

fn arg_equal(a: &Argument, b: &Argument) -> (r: bool)
    ensures
        r == (a@ == b@),
{
    match (a, b) {
        (Argument::Text(x), Argument::Text(y)) => same_chars(&chars_of(x.as_str()), &chars_of(y.as_str())),
        (Argument::Raw(x), Argument::Raw(y)) => same_bytes(x, y),
        _ => false,
    }
}

/// Whether the argument is the text `lit`.
fn arg_is(a: &Argument, lit: &str) -> (r: bool)
    ensures
        r == (arg_text(a@) == Some(lit@)),
{
    match a {
        Argument::Text(x) => same_chars(&chars_of(x.as_str()), &chars_of(lit)),
        Argument::Raw(_) => false,
    }
}

fn arg_lossy_text(a: &Argument) -> (r: String)
    ensures
        r@ == arg_lossy(a@),
{
    match a {
        Argument::Text(x) => x.clone(),
        Argument::Raw(b) => decode_lossy(b.as_slice()),
    }
}

fn is_seen(seen: &Vec<Argument>, a: &Argument) -> (r: bool)
    ensures
        r == seen@.map_values(|x: Argument| x@).contains(a@),
{
    let ghost views = seen@.map_values(|x: Argument| x@);
    let mut i: usize = 0;
    while i < seen.len()
        invariant
            i <= seen@.len(),
            views == seen@.map_values(|x: Argument| x@),
            forall|k: int| 0 <= k < i ==> views[k] != a@,
        decreases seen.len() - i,
    {
        if arg_equal(&seen[i], a) {
            assert(views[i as int] == a@);
            return true;
        }
        i += 1;
    }
    false
}

proof fn lemma_digits_prefix(s: Seq<char>, k: int)
    requires
        0 <= k <= s.len(),
    ensures
        digits_value(s.take(k)) <= digits_value(s),
    decreases s.len() - k,
{
    if k < s.len() {
        lemma_digits_prefix(s, k + 1);
        assert(s.take(k + 1).drop_last() == s.take(k));
    } else {
        assert(s.take(k) == s);
    }
}

fn timeout_of(v: &Argument) -> (r: Option<u64>)
    ensures
        r == timeout_value(v@),
{
    let t = match v {
        Argument::Raw(_) => return None,
        Argument::Text(t) => t,
    };
    let chars = chars_of(t.as_str());
    let start: usize = if chars.len() > 0 && chars[0] == '+' { 1 } else { 0 };
    let ghost d = chars@.skip(start as int);
    assert(d == (if chars@.len() > 0 && chars@[0] == '+' { chars@.drop_first() } else { chars@ }));
    if start == chars.len() {
        return None;
    }
    let mut value: u64 = 0;
    let mut i: usize = start;
    assert(d.take(0) =~= Seq::<char>::empty());
    while i < chars.len()
        invariant
            start <= i <= chars@.len(),
            d == chars@.skip(start as int),
            chars@ == t@,
            v@ == ArgView::Text(t@),
            d == (if chars@.len() > 0 && chars@[0] == '+' { chars@.drop_first() } else { chars@ }),
            value == digits_value(d.take(i - start)),
            value <= 3600,
            forall|k: int| 0 <= k < i - start ==> #[trigger] is_digit(d[k]),
        decreases chars.len() - i,
    {
        let c = chars[i];
        if !('0' <= c && c <= '9') {
            assert(d[i - start] == c);
            assert(!is_digit(d[i - start]));
            assert(!all_digits(d));
            return None;
        }
        let dv = ((c as u32) - 48) as u64;
        assert(d.take(i - start + 1).drop_last() == d.take(i - start));
        assert(d.take(i - start + 1).last() == c);
        value = value * 10 + dv;
        i += 1;
        if value > 3600 {
            proof {
                lemma_digits_prefix(d, i - start);
            }
            return None;
        }
    }
    assert(d.take(i - start) == d);
    if value >= 1 {
        Some(value)
    } else {
        None
    }
}

/// The options of `command` that a scan accepts.
fn allowed_option(command: &[char], name: &[char]) -> (r: bool)
    ensures
        r == allowed(command@, name@),
{
    if same_chars(command, &chars_of("commit")) {
        same_chars(name, &chars_of("--dry-run")) || same_chars(name, &chars_of("--yes")) || same_chars(name, &chars_of("--context-file"))
            || same_chars(name, &chars_of("--model")) || same_chars(name, &chars_of("--codex")) || same_chars(name, &chars_of("--timeout"))
    } else if same_chars(command, &chars_of("submit")) {
        same_chars(name, &chars_of("--revision"))
    } else if same_chars(command, &chars_of("check-commit")) {
        same_chars(name, &chars_of("--from")) || same_chars(name, &chars_of("--to")) || same_chars(name, &chars_of("--message-file"))
    } else if same_chars(command, &chars_of("changelog")) {
        same_chars(name, &chars_of("--from")) || same_chars(name, &chars_of("--to")) || same_chars(name, &chars_of("--entry-file"))
            || same_chars(name, &chars_of("--context-file")) || same_chars(name, &chars_of("--model")) || same_chars(name, &chars_of("--codex"))
            || same_chars(name, &chars_of("--timeout"))
    } else {
        false
    }
}

struct Scan {
    generation: Options,
    from: Option<Argument>,
    to: Option<Argument>,
    file: Option<Argument>,
    entry_file: Option<Argument>,
    revision: Option<Argument>,
    seen: Vec<Argument>,
}

spec fn scan_view(s: Scan) -> ScanState {
    ScanState {
        generation: s.generation@,
        from: opt_arg(s.from),
        to: opt_arg(s.to),
        file: opt_arg(s.file),
        entry_file: opt_arg(s.entry_file),
        revision: opt_arg(s.revision),
        seen: s.seen@.map_values(|x: Argument| x@),
    }
}

pub open spec fn arg_views(args: Seq<Argument>) -> Seq<ArgView> {
    args.map_values(|a: Argument| a@)
}

/// One step of the option scan: the option at `p`, and its value when it takes one.
fn scan_step(command: &[char], args: &Vec<Argument>, p: usize, st: Scan) -> (r: Result<(Scan, usize), String>)
    requires
        p < args@.len(),
    ensures
        match r {
            Ok((st2, p2)) => p < p2 <= args@.len() && scan(command@, arg_views(args@).skip(p as int), scan_view(st))
                == scan(command@, arg_views(args@).skip(p2 as int), scan_view(st2)),
            Err(e) => scan(command@, arg_views(args@).skip(p as int), scan_view(st)) == Err::<ScanState, Seq<char>>(e@),
        },
{
    let n = args.len();
    let ghost views = arg_views(args@);
    let ghost rest = views.skip(p as int);
    assert(rest[0] == args@[p as int]@);
    assert(rest.drop_first() == views.skip(p + 1));
    let option = &args[p];
    if is_seen(&st.seen, option) {
        let mut e = String::from_str("opção repetida: ");
        e.append(arg_lossy_text(option).as_str());
        e.append(".");
        return Err(e);
    }
    let mut st = st;
    let ghost before = st.seen@.map_values(|x: Argument| x@);
    st.seen.push(arg_copy(option));
    assert(st.seen@.map_values(|x: Argument| x@) =~= before.push(option@));
    let name = match option {
        Argument::Raw(_) => return Err(String::from_str("opção inválida.")),
        Argument::Text(n) => chars_of(n.as_str()),
    };
    if !allowed_option(command, &name) {
        let mut e = String::from_str("opção não reconhecida: ");
        e.append(option_text(option).as_str());
        e.append(".");
        return Err(e);
    }
    if same_chars(&name, &chars_of("--dry-run")) {
        st.generation.dry_run = true;
        return Ok((st, p + 1));
    }
    if same_chars(&name, &chars_of("--yes")) {
        st.generation.yes = true;
        return Ok((st, p + 1));
    }
    if p + 1 >= args.len() || arg_empty(&args[p + 1]) || arg_dash(&args[p + 1]) {
        let mut e = String::from_str("informe um valor para ");
        e.append(option_text(option).as_str());
        e.append(".");
        return Err(e);
    }
    let value = arg_copy(&args[p + 1]);
    assert(rest[1] == args@[p + 1]@);
    assert(rest.skip(2) == views.skip(p + 2));
    if same_chars(&name, &chars_of("--from")) {
        st.from = Some(value);
    } else if same_chars(&name, &chars_of("--to")) {
        st.to = Some(value);
    } else if same_chars(&name, &chars_of("--message-file")) {
        st.file = Some(value);
    } else if same_chars(&name, &chars_of("--entry-file")) {
        st.entry_file = Some(value);
    } else if same_chars(&name, &chars_of("--revision")) {
        st.revision = Some(value);
    } else if same_chars(&name, &chars_of("--context-file")) {
        st.generation.context_file = Some(value);
    } else if same_chars(&name, &chars_of("--model")) {
        st.generation.model = Some(value);
    } else if same_chars(&name, &chars_of("--codex")) {
        st.generation.codex = value;
    } else {
        match timeout_of(&value) {
            None => return Err(String::from_str("--timeout deve ser um inteiro entre 1 e 3600.")),
            Some(t) => {
                st.generation.timeout_seconds = t;
            },
        }
    }
    Ok((st, p + 2))
}


fn given(st: &Scan, name: &str) -> (r: bool)
    ensures
        r == was_given(scan_view(*st), name@),
{
    let probe = Argument::Text(String::from_str(name));
    is_seen(&st.seen, &probe)
}

/// The action that a command asks for once its options are scanned.
fn finish(command: &[char], st: Scan) -> (r: Result<Action, String>)
    ensures
        parse_view(r) == finish_scan(command@, scan_view(st)),
{
    if same_chars(command, &chars_of("commit")) {
        return Ok(Action::Commit(st.generation));
    }
    if same_chars(command, &chars_of("submit")) {
        return Ok(Action::Submit(
            match st.revision {
                Some(r) => r,
                None => Argument::Text(String::from_str("@-")),
            },
        ));
    }
    if same_chars(command, &chars_of("check-commit")) {
        return match (st.file, st.from, st.to) {
            (Some(p), None, None) => Ok(Action::CheckCommit(CheckCommitOptions { input: CheckCommitInput::MessageFile(p) })),
            (None, Some(f), Some(t)) => Ok(Action::CheckCommit(CheckCommitOptions { input: CheckCommitInput::Range { from: f, to: t } })),
            _ => Err(String::from_str("use --message-file CAMINHO ou --from REF --to REF, separadamente.")),
        };
    }
    if st.entry_file.is_some() && (given(&st, "--model") || given(&st, "--codex") || given(&st, "--timeout")) {
        return Err(String::from_str("use --entry-file separadamente das opções de IA."));
    }
    match st.from {
        None => Err(String::from_str("informe --from REF.")),
        Some(f) => match st.to {
            None => Err(String::from_str("informe --to REF.")),
            Some(t) => Ok(Action::Changelog(ChangelogOptions { from: f, to: t, entry_file: st.entry_file, generation: st.generation })),
        },
    }
}

/// Reads the command line `arguments` (without the program name): help, the version, or
/// a flow with its options; refuses unknown commands and options, repeated options,
/// missing values and combinations that do not go together.
pub fn parse(arguments: Vec<Argument>) -> (r: Result<Action, String>)
    ensures
        parse_view(r) == parse_spec(arg_views(arguments@)),
{
    let n = arguments.len();
    if n == 0 {
        return Ok(Action::Help(HELP));
    }
    let ghost views = arg_views(arguments@);
    assert(views[0] == arguments@[0]@);
    let command = &arguments[0];
    if n == 1 {
        if arg_is(command, "-h") || arg_is(command, "--help") {
            return Ok(Action::Help(HELP));
        }
        if arg_is(command, "-V") || arg_is(command, "--version") {
            return Ok(Action::Version);
        }
    }
    let cmd = match command {
        Argument::Raw(_) => {
            let mut e = String::from_str("comando não reconhecido: ");
            e.append(arg_lossy_text(command).as_str());
            e.append(".");
            return Err(e);
        },
        Argument::Text(c) => chars_of(c.as_str()),
    };
    let help: &'static str = if same_chars(&cmd, &chars_of("commit")) {
        COMMIT_HELP
    } else if same_chars(&cmd, &chars_of("submit")) {
        SUBMIT_HELP
    } else if same_chars(&cmd, &chars_of("check-commit")) {
        CHECK_HELP
    } else if same_chars(&cmd, &chars_of("changelog")) {
        CHANGELOG_HELP
    } else {
        let mut e = String::from_str("comando não reconhecido: ");
        e.append(arg_lossy_text(command).as_str());
        e.append(".");
        return Err(e);
    };
    assert(views.drop_first() == views.skip(1));
    if n == 2 {
        assert(views.drop_first()[0] == arguments@[1]@);
        if arg_is(&arguments[1], "-h") || arg_is(&arguments[1], "--help") {
            return Ok(Action::Help(help));
        }
    }
    let mut st = Scan {
        generation: Options {
            dry_run: false,
            yes: false,
            context_file: None,
            model: None,
            codex: Argument::Text(String::from_str("codex")),
            timeout_seconds: 120,
        },
        from: None,
        to: None,
        file: None,
        entry_file: None,
        revision: None,
        seen: Vec::new(),
    };
    assert(st.seen@.map_values(|x: Argument| x@) =~= Seq::<ArgView>::empty());
    assert(scan_view(st) == initial_scan());
    assert(parse_spec(views) == match scan(cmd@, views.skip(1), initial_scan()) {
        Err(e) => Err(e),
        Ok(s) => finish_scan(cmd@, s),
    });
    let mut p: usize = 1;
    while p < n
        invariant
            1 <= p <= n,
            n == arguments@.len(),
            views == arg_views(arguments@),
            parse_spec(views) == match scan(cmd@, views.skip(1), initial_scan()) {
                Err(e) => Err(e),
                Ok(s) => finish_scan(cmd@, s),
            },
            scan(cmd@, views.skip(1), initial_scan()) == scan(cmd@, views.skip(p as int), scan_view(st)),
        decreases n - p,
    {
        match scan_step(&cmd, &arguments, p, st) {
            Ok((s2, p2)) => {
                st = s2;
                p = p2;
            },
            Err(e) => return Err(e),
        }
    }
    assert(views.skip(p as int) =~= Seq::<ArgView>::empty());
    finish(&cmd, st)
}

fn option_text(a: &Argument) -> (r: String)
    ensures
        a@ is Text ==> r@ == arg_text(a@).unwrap(),
{
    match a {
        Argument::Text(x) => x.clone(),
        Argument::Raw(_) => String::new(),
    }
}

fn arg_empty(a: &Argument) -> (r: bool)
    ensures
        r == arg_is_empty(a@),
{
    match a {
        Argument::Text(x) => x.as_str().is_empty(),
        Argument::Raw(b) => b.len() == 0,
    }
}

fn arg_dash(a: &Argument) -> (r: bool)
    ensures
        r == arg_starts_with_dash(a@),
{
    match a {
        Argument::Text(x) => {
            let c = chars_of(x.as_str());
            c.len() > 0 && c[0] == '-'
        },
        Argument::Raw(b) => b.len() > 0 && b[0] == 45,
    }
}

} // verus!
