use clean_dev_cycle::release::{
    check_base, check_changes, check_entries, check_notes_hash, eligible, entries, event_repository,
    listed_file, manifest, next_version, parent, prepare, prepare_gate, previous_version, publication_context,
    revise_notes, settings, settings_from_file, stable, tag_version, Manifest, Prepared, ReleaseSection,
};
use clean_dev_cycle::release;
use clean_dev_cycle::version::Version;

const START: &str = "<!-- clean-dev-cycle:release:start -->\n";
const END: &str = "<!-- clean-dev-cycle:release:end -->\n\n";

fn v(major: u64, minor: u64, patch: u64) -> Version {
    Version::new(major, minor, patch)
}

fn manifest_with(version: &str) -> Manifest {
    Manifest {
        schema: 1,
        version: version.into(),
        parent: String::new(),
        base: None,
        base_tag: None,
        fingerprint: String::new(),
        message: String::new(),
        notes_hash: String::new(),
    }
}

#[test]
fn release_policy_is_independent_of_ai_and_internal_types_do_not_release() {
    let pre = v(0, 2, 3);
    let stable = v(1, 2, 3);
    for (message, zero, one) in [
        ("feat: recurso", "0.3.0", "1.3.0"),
        ("fix: corrigir", "0.2.4", "1.2.4"),
        ("perf: acelerar", "0.2.4", "1.2.4"),
        ("feat!: mudar contrato", "0.3.0", "2.0.0"),
        ("chore: incompatibilidade\n\nBREAKING CHANGE: contrato mudou", "0.3.0", "2.0.0"),
    ] {
        assert!(eligible(message).unwrap());
        assert_eq!(next_version(&pre, message, false).text(), zero);
        assert_eq!(next_version(&stable, message, false).text(), one);
        assert!(next_version(&pre, message, true).same(&pre));
    }
    for kind in ["docs", "chore", "ci", "test", "style", "build", "refactor", "revert"] {
        assert!(!eligible(&format!("{kind}: ajuste interno")).unwrap());
    }
}

#[test]
fn previous_version_prefers_pending_stack_then_published_tag_then_start() {
    let initial = v(1, 2, 0);
    let parent = manifest_with("0.7.0");
    assert!(previous_version(Some(&parent), Some("v0.4.0"), &initial).unwrap().same(&v(0, 7, 0)));
    assert!(previous_version(None, Some("v0.4.0"), &initial).unwrap().same(&v(0, 4, 0)));
    assert!(previous_version(None, None, &initial).unwrap().same(&v(1, 2, 0)));
    assert!(previous_version(None, Some("0.4.0"), &initial).is_err());
    for invalid in ["0.0.9", "1.0.0-rc1", "1.0.0+build", "x"] {
        assert!(stable(invalid).is_err(), "{invalid}");
    }
}

#[test]
fn malformed_or_nested_changelog_markers_are_rejected() {
    for text in [START.to_owned(), END.into(), format!("{START}{START}text{END}")] {
        assert!(entries(&text).is_err());
    }
    assert_eq!(
        entries(&format!("before\n{START}one\n{END}after")).unwrap(),
        ("before\nafter".into(), vec!["one\n".into()])
    );
}

#[test]
fn changelog_errors_name_the_broken_marker() {
    assert_eq!(entries(&format!("x{START}one")).unwrap_err(), "entrada de release incompleta.");
    assert_eq!(entries(&format!("{START}a clean-dev-cycle:release: b{END}")).unwrap_err(), "entrada de release aninhada.");
    assert_eq!(entries("texto <!-- clean-dev-cycle:release:x -->").unwrap_err(), "marcadores de changelog inválidos.");
}

#[test]
fn a_prepared_changelog_puts_the_new_entry_first_and_reads_back() {
    let parent_log = format!("# Changelog\n\n{START}## 0.1.0\n\n### Início\n\nPrimeira.\n{END}Texto livre.\n");
    let log = prepare("0.2.0", "### Novo\n\nSegunda.", Some(&parent_log), Some(&parent_log), Ok(None)).unwrap();
    assert_eq!(
        log,
        format!("# Changelog\n\n{START}## 0.2.0\n\n### Novo\n\nSegunda.\n{END}{START}## 0.1.0\n\n### Início\n\nPrimeira.\n{END}Texto livre.\n")
    );
    let (plain, found) = entries(&log).unwrap();
    assert_eq!(plain, "# Changelog\n\nTexto livre.\n");
    assert_eq!(found, vec!["## 0.2.0\n\n### Novo\n\nSegunda.\n".to_owned(), "## 0.1.0\n\n### Início\n\nPrimeira.\n".to_owned()]);
}

#[test]
fn a_first_changelog_starts_from_the_header() {
    let log = prepare("0.1.0", "### A\n\nB.", None, None, Ok(None)).unwrap();
    assert_eq!(log, format!("# Changelog\n\n{START}## 0.1.0\n\n### A\n\nB.\n{END}"));
}

#[test]
fn regenerating_a_local_candidate_replaces_only_its_own_entry() {
    let parent_log = "# Changelog\n\n".to_owned();
    let own = format!("# Changelog\n\n{START}## 0.1.0\n\n### A\n\nB.\n{END}");
    let log = prepare("0.1.0", "### C\n\nD.", Some(&own), Some(&parent_log), Ok(Some("0.1.0".into()))).unwrap();
    assert_eq!(log, format!("# Changelog\n\n{START}## 0.1.0\n\n### C\n\nD.\n{END}"));
    assert_eq!(
        prepare("0.1.0", "### C\n\nD.", Some(&own), Some(&parent_log), Ok(Some("0.2.0".into()))).unwrap_err(),
        "entrada local não corresponde à versão preparada."
    );
    assert_eq!(
        prepare("0.1.0", "### C\n\nD.", Some(&own), Some(&parent_log), Ok(None)).unwrap_err(),
        "entradas anteriores do changelog foram alteradas."
    );
    assert_eq!(
        prepare("0.1.0", "### C\n\nD.", Some("Sem cabeçalho\n"), None, Ok(None)).unwrap_err(),
        "CHANGELOG.md deve começar com '# Changelog' e uma linha em branco."
    );
    assert_eq!(prepare("0.1.0", "x", Some(&own), None, Err("manifesto".into())).unwrap_err(), "manifesto");
}

#[test]
fn revised_notes_replace_the_prepared_entry() {
    let prepared = Prepared { tree: "t".into(), version: "0.2.0".into(), notes: "### A\n\nB.".into() };
    let log = format!("# Changelog\n\n{START}## 0.2.0\n\n### A\n\nB.\n{END}");
    let (notes, revised) = revise_notes(&prepared, "### C\n\nD.", Some(&log)).unwrap();
    assert_eq!(notes, "### C\n\nD.");
    assert_eq!(revised, format!("# Changelog\n\n{START}## 0.2.0\n\n### C\n\nD.\n{END}"));
    assert_eq!(revise_notes(&prepared, "### C\n\nD.", None).unwrap_err(), "changelog preparado ausente.");
    assert!(revise_notes(&prepared, "sem título", Some(&log)).is_err());
}

#[test]
fn files_must_be_regular_and_utf8() {
    assert!(listed_file("a", b"").unwrap() == false);
    assert!(listed_file("a", b"100644 blob 123\ta").unwrap());
    assert!(listed_file("a", b"100755 blob 123\ta").unwrap());
    assert_eq!(listed_file("a", b"120000 blob 123\ta").unwrap_err(), "a deve ser um arquivo regular.");
    assert_eq!(release::file("a", b"100644 blob 1\ta", Ok(b"texto".to_vec())).unwrap().as_deref(), Some("texto"));
    assert_eq!(release::file("a", b"", Ok(Vec::new())).unwrap(), None);
    assert_eq!(release::file("a", b"100644 blob 1\ta", Ok(vec![0xff])).unwrap_err(), "a precisa estar em UTF-8.");
    assert_eq!(release::file("a", b"100644 blob 1\ta", Err("Git: erro".into())).unwrap_err(), "Git: erro");
}

#[test]
fn preparation_needs_a_commit_with_one_parent() {
    assert_eq!(parent("abc def\n").unwrap(), "def");
    assert_eq!(parent("abc").unwrap_err(), "a preparação exige um commit com um único pai.");
    assert_eq!(parent("a b c\n").unwrap_err(), "a preparação exige um commit com um único pai.");
}

fn section(keys: &[&str], enabled: Option<bool>, initial: Option<Option<&str>>) -> Option<Result<Option<Option<ReleaseSection>>, String>> {
    Some(Ok(Some(Some(ReleaseSection {
        keys: keys.iter().map(|k| k.to_string()).collect(),
        enabled,
        initial_version: initial.map(|i| i.map(str::to_owned)),
    }))))
}

#[test]
fn initial_version_starts_releases_and_invalid_settings_are_rejected() {
    assert!(settings(None).unwrap().is_none());
    assert!(settings(Some(Ok(None))).unwrap().is_none());
    assert_eq!(settings(Some(Err("x".into()))).unwrap_err(), "configuração inválida: x");
    assert_eq!(settings(Some(Ok(Some(None)))).unwrap_err(), "[release] deve ser uma tabela.");
    assert!(settings(section(&["enabled"], Some(true), None)).unwrap().unwrap().same(&v(0, 1, 0)));
    assert!(settings(section(&["enabled", "initial_version"], Some(true), Some(Some("1.2.0")))).unwrap().unwrap().same(&v(1, 2, 0)));
    assert!(settings(section(&["enabled"], Some(false), None)).unwrap().is_none());
    assert_eq!(settings(section(&["enabled", "outra"], Some(true), None)).unwrap_err(), "chave desconhecida em [release]: outra.");
    assert_eq!(settings(section(&[], None, None)).unwrap_err(), "release.enabled deve ser booleano.");
    assert_eq!(settings(section(&[], Some(true), Some(None))).unwrap_err(), "release.initial_version deve ser um texto.");
    assert!(settings(section(&[], Some(true), Some(Some("0.0.1")))).unwrap_err().starts_with("release.initial_version: "));
}

#[test]
fn manifests_must_hold_a_stable_version() {
    assert!(manifest(None).unwrap().is_none());
    assert!(manifest(Some(Ok(manifest_with("0.3.0")))).unwrap().is_some());
    assert!(manifest(Some(Ok(manifest_with("0.3.0-rc.1")))).unwrap_err().starts_with("manifesto de release inválido: "));
    assert_eq!(manifest(Some(Err("campo".into()))).unwrap_err(), "manifesto de release inválido: campo");
}

#[test]
fn internal_changes_do_not_release_and_eligible_changes_must_be_prepared() {
    let log = Ok(None);
    assert!(check_changes("chore: limpar", Ok(None), Ok(None), Ok(None), log.clone()).unwrap().is_none());
    assert!(check_changes("chore: limpar", Ok(None), Ok(Some("m".into())), Ok(None), Ok(None))
        .unwrap_err()
        .starts_with("mudança interna alterou uma release."));
    assert!(check_changes("feat: novo", Ok(None), Ok(None), Ok(None), Ok(None)).unwrap_err().starts_with("release não preparada."));
    let found = check_changes("feat: novo", Ok(None), Ok(Some("m".into())), Ok(None), Ok(None)).unwrap().unwrap();
    assert_eq!(found.description, "feat: novo");
    assert!(check_changes("sem tipo", Ok(None), Ok(None), Ok(None), Ok(None)).is_err());
}

#[test]
fn released_notes_follow_the_heading_and_keep_previous_entries() {
    let old = vec!["## 0.1.0\n\n### A\n\nB.\n".to_owned()];
    let all = vec!["## 0.2.0\n\n### C\n\nD.\n".to_owned(), "## 0.1.0\n\n### A\n\nB.\n".to_owned()];
    assert_eq!(check_entries("0.2.0", &old, &all).unwrap(), "### C\n\nD.");
    assert_eq!(check_entries("0.3.0", &old, &all).unwrap_err(), "entrada da versão ausente.");
    assert_eq!(check_entries("0.2.0", &all, &old).unwrap_err(), "a release precisa preservar todas as entradas anteriores.");
    assert!(check_notes_hash("h", Ok("h".into())).is_ok());
    assert!(check_notes_hash("h", Ok("g".into())).unwrap_err().starts_with("notas alteradas após a revisão."));
}

#[test]
fn release_bases_must_be_ancestors_with_a_tag() {
    assert!(check_base("abc", Ok(b"abc\n".to_vec()), "v0.1.0").is_ok());
    assert_eq!(check_base("abc", Ok(b"def\n".to_vec()), "v0.1.0").unwrap_err(), "base de release inválida.");
    assert_eq!(check_base("abc", Ok(b"abc\n".to_vec()), "0.1.0").unwrap_err(), "base de release inválida.");
}

#[test]
fn publication_requires_the_release_job_on_main() {
    assert!(publication_context(Some("true"), Some("abc"), Some("refs/heads/main"), "abc").is_ok());
    for (a, s, r) in [(None, Some("abc"), Some("refs/heads/main")), (Some("true"), Some("def"), Some("refs/heads/main")), (Some("true"), Some("abc"), Some("refs/heads/x"))] {
        assert!(publication_context(a, s, r, "abc").is_err());
    }
    assert!(event_repository(Some("o/r"), "o/r").is_ok());
    assert_eq!(event_repository(Some("o/x"), "o/r").unwrap_err(), "repositório do evento diverge de origin.");
}

#[test]
fn only_eligible_changes_with_releases_enabled_prepare() {
    assert!(prepare_gate(Some(v(0, 1, 0)), "feat: x", false).unwrap().is_some());
    assert!(prepare_gate(Some(v(0, 1, 0)), "docs: x", false).unwrap().is_none());
    assert!(prepare_gate(None, "feat: x", false).unwrap().is_none());
    assert_eq!(
        prepare_gate(None, "feat: x", true).unwrap_err(),
        "--entry-file exige uma mudança elegível com release.enabled = true."
    );
}

#[test]
fn tags_name_versions_after_v() {
    assert!(tag_version("v1.2.3").unwrap().same(&v(1, 2, 3)));
    assert_eq!(tag_version("1.2.3").unwrap_err(), "tag de release inválida.");
}

#[test]
fn outdated_manifests_and_incomplete_bases_are_refused() {
    let mut m = manifest_with("0.2.0");
    m.parent = "p".into();
    m.message = "feat: novo".into();
    m.fingerprint = "f".into();
    let initial = v(0, 1, 0);
    let parent = manifest_with("0.1.0");
    assert!(release::check_metadata(&m, Some(&parent), "p", "feat: novo", &initial, Ok("f".into())).is_ok());
    assert!(release::check_metadata(&m, Some(&parent), "p", "feat: novo", &initial, Ok("g".into()))
        .unwrap_err()
        .starts_with("release desatualizada ou versão inválida."));
    assert!(release::check_metadata(&m, Some(&parent), "q", "feat: novo", &initial, Ok("f".into())).is_err());
    assert!(release::check_metadata(&m, Some(&parent), "p", "fix: outro", &initial, Ok("f".into())).is_err());
    let mut first = manifest_with("0.1.0");
    first.parent = "p".into();
    first.message = "feat: novo".into();
    first.fingerprint = "f".into();
    assert!(release::check_metadata(&first, None, "p", "feat: novo", &initial, Ok("f".into())).is_ok());
    first.base_tag = Some("v0.1.0".into());
    assert_eq!(
        release::check_metadata(&first, None, "p", "feat: novo", &initial, Ok("f".into())).unwrap_err(),
        "base de release incompleta."
    );
}

#[test]
fn published_bases_need_a_tag_and_local_history() {
    assert_eq!(release::tagged_commit(Some("c".into())).unwrap(), "c");
    assert_eq!(release::tagged_commit(None).unwrap_err(), "release publicada sem tag.");
    assert_eq!(release::known_commit(Ok("c".into())).unwrap(), "c");
    assert_eq!(
        release::known_commit(Err("x".into())).unwrap_err(),
        "atualize o histórico com jj git fetch --remote origin antes de preparar a release."
    );
    assert_eq!(
        release::notes_diff(Err("e".into())).unwrap_err(),
        "e\nUse commit --entry-file para fornecer notas revisadas sem IA."
    );
}

#[test]
fn reviewed_content_excludes_what_the_preparation_writes() {
    assert_eq!(release::normalized(None).unwrap(), None);
    let only_entries = format!("# Changelog\n\n{START}## 0.1.0\n\nx\n{END}");
    assert_eq!(release::normalized(Some(&only_entries)).unwrap(), Some(None));
    let with_text = format!("# Changelog\n\nlivre\n{START}## 0.1.0\n\nx\n{END}");
    assert_eq!(release::normalized(Some(&with_text)).unwrap(), Some(Some("# Changelog\n\nlivre\n".into())));
    assert_eq!(release::file_mode(b"100755 blob x\tf"), "100755");
    assert_eq!(release::file_mode(b"100644 blob x\tf"), "100644");
}

#[test]
fn the_fingerprint_covers_content_and_base() {
    let data: serde_json::Value = serde_json::from_str(&release::fingerprint_data("conteúdo", Some("abc"), None)).unwrap();
    assert_eq!(data["content"], "conteúdo");
    assert_eq!(data["base"], "abc");
    assert!(data["base_tag"].is_null());
}

#[test]
fn release_settings_are_read_from_the_configuration_text() {
    let settings = |text: &str| settings_from_file(Ok(Some(text.into())));
    assert!(settings_from_file(Ok(None)).unwrap().is_none());
    assert_eq!(settings_from_file(Err("ilegível".into())).unwrap_err(), "ilegível");
    assert!(settings("[checks]\ncommands = [['x']]\n").unwrap().is_none());
    assert!(settings("[release]\nenabled = false\n").unwrap().is_none());
    assert_eq!(settings("[release]\nenabled = true\n").unwrap().unwrap().text(), "0.1.0");
    assert_eq!(settings("[release]\nenabled = true\ninitial_version = \"2.3.4\"\n").unwrap().unwrap().text(), "2.3.4");
    assert_eq!(settings("release = 1\n").unwrap_err(), "[release] deve ser uma tabela.");
    assert_eq!(settings("[release]\nenabled = true\nextra = 1\n").unwrap_err(), "chave desconhecida em [release]: extra.");
    assert_eq!(settings("[release]\nenabled = \"sim\"\n").unwrap_err(), "release.enabled deve ser booleano.");
    assert_eq!(settings("[release]\nenabled = true\ninitial_version = 1\n").unwrap_err(), "release.initial_version deve ser um texto.");
    assert!(settings("[release]\nenabled = true\ninitial_version = \"1.0.0-rc.1\"\n").unwrap_err().starts_with("release.initial_version: "));
    assert!(settings("[release").unwrap_err().starts_with("configuração inválida: "));
}

fn pre(major: u64, minor: u64, patch: u64, pre: &str) -> Version {
    Version { major, minor, patch, pre: pre.into(), build: String::new() }
}

#[test]
fn a_pre_release_advances_to_the_next_pre_release() {
    assert_eq!(next_version(&pre(1, 0, 0, "rc.1"), "fix: corrigir", false).text(), "1.0.0-rc.2");
    assert_eq!(next_version(&pre(1, 0, 0, "rc.1"), "feat!: quebrar", false).text(), "1.0.0-rc.2");
    assert_eq!(next_version(&pre(0, 3, 0, "rc"), "feat: recurso", false).text(), "0.3.0-rc.1");
    assert_eq!(next_version(&pre(0, 3, 0, "alpha.beta"), "fix: x", false).text(), "0.3.0-alpha.beta.1");
    assert!(clean_dev_cycle::version::prerelease_overflows("rc.4294967295"));
    assert!(!clean_dev_cycle::version::prerelease_overflows("rc.4294967294"));
    assert!(!clean_dev_cycle::version::prerelease_overflows("4294967295"));
    let mut m = manifest_with("1.0.0-rc.2");
    m.parent = "p".into();
    m.message = "fix: corrigir".into();
    m.fingerprint = "f".into();
    m.base = Some("abc".into());
    m.base_tag = Some("v1.0.0-rc.1".into());
    assert!(release::check_metadata(&m, None, "p", "fix: corrigir", &v(0, 1, 0), Ok("f".into())).is_ok());
    m.base_tag = Some("v1.0.0-rc.4294967295".into());
    assert!(release::check_metadata(&m, None, "p", "fix: corrigir", &v(0, 1, 0), Ok("f".into())).is_err());
}

#[test]
fn the_check_reads_back_the_notes_of_a_prepared_changelog() {
    let parent_log = format!("# Changelog\n\n{START}## 0.1.0\n\n### Início\n\nPrimeira.\n{END}");
    let notes = "### Novo\n\nSegunda.";
    let log = prepare("0.2.0", notes, Some(&parent_log), Some(&parent_log), Ok(None)).unwrap();
    let (_, old) = entries(&parent_log).unwrap();
    let (_, all) = entries(&log).unwrap();
    assert_eq!(check_entries("0.2.0", &old, &all).unwrap(), notes);
    let first = prepare("0.1.0", notes, None, None, Ok(None)).unwrap();
    let (_, none) = entries("# Changelog\n\n").unwrap();
    let (_, only) = entries(&first).unwrap();
    assert_eq!(check_entries("0.1.0", &none, &only).unwrap(), notes);
}
