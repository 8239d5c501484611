use clean_dev_cycle::process::Outcome;
use clean_dev_cycle::provider::{
    audit_event_fields, audit_events, event_lines, model_preferences_of, response_from_fields, generation_step, initial_prompt, model_preferences, parse_response, read_text, Answer,
    CodexConfig, EventFields, GenerationStep, Purpose, ResponseFields,
};

const NOTICE: &str = "Code Mode is unavailable because code-mode host is disabled. Code mode will fail closed; enable `features.code_mode_host` and install `codex-code-mode-host`.";

fn event(kind: &str, message: Option<&str>) -> String {
    let mut item = serde_json::Map::new();
    item.insert("type".into(), serde_json::Value::from(kind));
    if let Some(m) = message {
        item.insert("message".into(), serde_json::Value::from(m));
    }
    let mut event = serde_json::Map::new();
    event.insert("type".into(), serde_json::Value::from("item.completed"));
    event.insert("item".into(), serde_json::Value::Object(item));
    serde_json::Value::Object(event).to_string()
}

#[test]
fn disabled_code_mode_notice_does_not_hide_tool_calls_or_other_errors() {
    let notice = event("error", Some(NOTICE));
    assert!(audit_events(notice.as_bytes()).is_ok());
    let tool = event("command_execution", None);
    assert!(audit_events(format!("{notice}\n{tool}\n").as_bytes()).is_err());
    let error = event("error", Some("erro inesperado"));
    assert!(audit_events(error.as_bytes()).unwrap_err().contains("erro inesperado"));
}

#[test]
fn messages_and_reasoning_pass_and_broken_events_do_not() {
    let fine = format!("{}\n{}\n{{\"type\":\"turn.started\"}}\n", event("agent_message", None), event("reasoning", None));
    assert!(audit_events(fine.as_bytes()).is_ok());
    assert!(audit_events(b"").is_ok());
    assert_eq!(audit_events(b"not json\n").unwrap_err(), "o Codex retornou eventos inválidos.");
    assert_eq!(
        audit_events(event("web_search", None).as_bytes()).unwrap_err(),
        "o Codex retornou um evento não permitido (web_search); a geração foi recusada."
    );
    assert_eq!(audit_events(event("error", None).as_bytes()).unwrap_err(), "Codex informou um erro: erro sem descrição");
}

#[test]
fn parsed_events_are_checked_in_order() {
    let parsed = |kind: &str| Some(EventFields { kind: Some(kind.into()), message: None });
    assert!(audit_event_fields(&vec![parsed("agent_message"), Some(EventFields { kind: None, message: None })]).is_ok());
    assert_eq!(audit_event_fields(&vec![None, parsed("web_search")]).unwrap_err(), "o Codex retornou eventos inválidos.");
}

#[test]
fn events_are_the_nonempty_lines() {
    assert_eq!(event_lines(b"a\n\nb\n"), vec![b"a".to_vec(), b"b".to_vec()]);
}

fn answer(message: Option<&str>, reason: Option<&str>, needs: Option<bool>) -> Option<Option<ResponseFields>> {
    Some(Some(ResponseFields { entries: 3, message: message.map(str::to_owned), reason: reason.map(str::to_owned), needs_context: needs }))
}

#[test]
fn answers_must_have_exactly_the_requested_fields() {
    assert_eq!(parse_response(&Purpose::CommitMessage, "{").err().unwrap(), "a resposta deve ser um objeto JSON válido.");
    assert_eq!(parse_response(&Purpose::CommitMessage, "[1, 2, 3]").err().unwrap(), "a resposta não corresponde ao formato solicitado.");
    let four = Some(Some(ResponseFields { entries: 4, message: Some("fix: a".into()), reason: Some(String::new()), needs_context: Some(false) }));
    assert_eq!(response_from_fields(&Purpose::CommitMessage, four).err().unwrap(), "a resposta não corresponde ao formato solicitado.");
    assert_eq!(response_from_fields(&Purpose::CommitMessage, answer(None, Some(""), Some(false))).err().unwrap(), "campo message ausente ou inválido.");
    assert_eq!(response_from_fields(&Purpose::CommitMessage, answer(Some(""), None, Some(false))).err().unwrap(), "campo reason ausente ou inválido.");
    assert_eq!(response_from_fields(&Purpose::CommitMessage, answer(Some(""), Some(""), None)).err().unwrap(), "campo needs_context ausente ou inválido.");
    assert_eq!(response_from_fields(&Purpose::CommitMessage, answer(Some(""), Some(" "), Some(true))).err().unwrap(), "o pedido de contexto deve explicar a dúvida.");
    match response_from_fields(&Purpose::CommitMessage, answer(Some(""), Some("qual intenção?"), Some(true))) {
        Ok(Answer::NeedsContext(r)) => assert_eq!(r, "qual intenção?"),
        _ => panic!("esperava um pedido de contexto"),
    }
    match response_from_fields(&Purpose::CommitMessage, answer(Some(" fix: corrigir "), Some(""), Some(false))) {
        Ok(Answer::Message(m)) => assert_eq!(m, "fix: corrigir"),
        _ => panic!("esperava uma mensagem"),
    }
    assert!(response_from_fields(&Purpose::ReleaseNote, answer(Some("fix: corrigir"), Some(""), Some(false))).is_err());
}

fn json_answer(message: &str, reason: &str, needs: bool) -> String {
    let mut object = serde_json::Map::new();
    object.insert("message".into(), serde_json::Value::from(message));
    object.insert("reason".into(), serde_json::Value::from(reason));
    object.insert("needs_context".into(), serde_json::Value::from(needs));
    serde_json::Value::Object(object).to_string()
}

fn ok_run() -> Result<Outcome, String> {
    Ok(Outcome { success: true, stdout: Vec::new(), stderr: Vec::new() })
}

#[test]
fn invalid_generation_gets_only_one_correction_attempt() {
    let bad = || json_answer("sem tipo", "", false);
    match generation_step(&Purpose::CommitMessage, 0, "P", ok_run(), "exit 0", Ok(bad())) {
        GenerationStep::Retry(p) => assert!(p.starts_with("P\n\nA resposta anterior foi rejeitada. Gere novamente atendendo a este erro de validação: ")),
        _ => panic!("esperava uma correção"),
    }
    match generation_step(&Purpose::CommitMessage, 1, "P", ok_run(), "exit 0", Ok(bad())) {
        GenerationStep::Done(Err(e)) => assert!(e.starts_with("o Codex retornou uma mensagem inválida após duas tentativas: ")),
        _ => panic!("esperava o fim"),
    }
    match generation_step(&Purpose::CommitMessage, 0, "P", ok_run(), "exit 0", Ok(json_answer("fix: a", "", false))) {
        GenerationStep::Done(Ok(m)) => assert_eq!(m, "fix: a"),
        _ => panic!("esperava a mensagem"),
    }
}

#[test]
fn failures_of_the_codex_cli_end_the_generation() {
    let failed = Ok(Outcome { success: false, stdout: Vec::new(), stderr: b"sem login\n".to_vec() });
    match generation_step(&Purpose::CommitMessage, 0, "P", failed, "exit status: 1", Ok(String::new())) {
        GenerationStep::Done(Err(e)) => assert_eq!(
            e,
            "Codex CLI falhou (exit status: 1). Confira a instalação e a autenticação do Codex.\nsem login"
        ),
        _ => panic!("esperava uma falha"),
    }
    match generation_step(&Purpose::CommitMessage, 0, "P", Err("operação cancelada.".into()), "", Ok(String::new())) {
        GenerationStep::Done(Err(e)) => assert_eq!(e, "operação cancelada."),
        _ => panic!("esperava uma falha"),
    }
    let needs = json_answer("", "por quê?", true);
    match generation_step(&Purpose::CommitMessage, 0, "P", ok_run(), "", Ok(needs)) {
        GenerationStep::Done(Err(e)) => assert!(e.starts_with("o Codex precisa de mais contexto: por quê?\n")),
        _ => panic!("esperava um pedido de contexto"),
    }
}

#[test]
fn events_and_answers_are_read_from_what_codex_wrote() {
    let tool = event("command_execution", None);
    let run = Ok(Outcome { success: true, stdout: format!("{tool}\n").into_bytes(), stderr: Vec::new() });
    match generation_step(&Purpose::CommitMessage, 0, "P", run, "", Ok(json_answer("fix: a", "", false))) {
        GenerationStep::Done(Err(e)) => assert!(e.contains("command_execution")),
        _ => panic!("esperava a recusa do evento"),
    }
    match generation_step(&Purpose::CommitMessage, 0, "P", ok_run(), "", Err("sem resposta".into())) {
        GenerationStep::Retry(p) => assert!(p.ends_with("sem resposta")),
        _ => panic!("esperava uma correção"),
    }
    match parse_response(&Purpose::CommitMessage, &json_answer(" fix: corrigir ", "", false)) {
        Ok(Answer::Message(m)) => assert_eq!(m, "fix: corrigir"),
        _ => panic!("esperava uma mensagem"),
    }
    let extra = r#"{"message": "fix: a", "reason": "", "needs_context": false, "x": 1}"#;
    assert_eq!(parse_response(&Purpose::CommitMessage, extra).err().unwrap(), "a resposta não corresponde ao formato solicitado.");
    let wrong = r#"{"message": 1, "reason": "", "needs_context": false}"#;
    assert_eq!(parse_response(&Purpose::CommitMessage, wrong).err().unwrap(), "campo message ausente ou inválido.");
}

#[test]
fn the_codex_configuration_file_is_read_as_toml() {
    assert_eq!(model_preferences_of(None).unwrap(), (None, None));
    assert_eq!(model_preferences_of(Some(Err("ilegível".into()))).unwrap_err(), "ilegível");
    assert_eq!(
        model_preferences_of(Some(Ok("model = [".into()))).unwrap_err(),
        "não foi possível interpretar a configuração de modelo do Codex."
    );
    assert_eq!(
        model_preferences_of(Some(Ok("model = \"m\"\nmodel_reasoning_effort = \"high\"\n".into()))).unwrap(),
        (Some("m".into()), Some("high".into()))
    );
    assert_eq!(model_preferences_of(Some(Ok("model = 3".into()))).unwrap(), (None, None));
    assert!(model_preferences_of(Some(Ok("model_provider = \"azure\"".into()))).is_err());
}

#[test]
fn the_prompt_carries_the_change_as_json() {
    let p = initial_prompt("INSTR", "diff \"x\"", "ctx");
    assert!(p.starts_with("INSTR\n\nDADOS DA MUDANÇA (JSON):\n"));
    let data: serde_json::Value = serde_json::from_str(&p["INSTR\n\nDADOS DA MUDANÇA (JSON):\n".len()..]).unwrap();
    assert_eq!(data["diff"], "diff \"x\"");
    assert_eq!(data["context"], "ctx");
}

#[test]
fn only_the_openai_provider_is_supported() {
    assert_eq!(model_preferences(None).unwrap(), (None, None));
    assert!(model_preferences(Some(None)).is_err());
    let config = |p: Option<&str>| Some(Some(CodexConfig { model_provider: p.map(str::to_owned), model: Some("m".into()), effort: Some("high".into()) }));
    assert_eq!(model_preferences(config(Some("openai"))).unwrap(), (Some("m".into()), Some("high".into())));
    assert_eq!(model_preferences(config(None)).unwrap(), (Some("m".into()), Some("high".into())));
    assert_eq!(
        model_preferences(config(Some("outro"))).unwrap_err(),
        "esta versão suporta a autenticação padrão do Codex com o provedor OpenAI."
    );
}

#[test]
fn bounded_files_must_fit_and_be_utf8() {
    assert_eq!(read_text("f", 3, b"abc").unwrap(), "abc");
    assert_eq!(read_text("f", 3, b"abcd").unwrap_err(), "f excede o limite de 3 bytes.");
    assert_eq!(read_text("f", 16384, &[0xff]).unwrap_err(), "f precisa estar em UTF-8.");
}

#[test]
fn the_change_is_written_as_compact_json_with_sorted_keys() {
    assert_eq!(
        initial_prompt("I", "a\"b\\\n\t\u{1}", "ç"),
        "I\n\nDADOS DA MUDANÇA (JSON):\n{\"context\":\"ç\",\"diff\":\"a\\\"b\\\\\\n\\t\\u0001\"}"
    );
}
