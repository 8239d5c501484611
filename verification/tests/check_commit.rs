use clean_dev_cycle::check_commit::{commit_ids, require_full_history, validate_commit, validate_range};

#[test]
fn commit_objects_are_read_after_their_headers() {
    assert_eq!(validate_commit(Ok(b"tree t\n\nfeat: novo\n".to_vec())).unwrap(), true);
    assert_eq!(validate_commit(Ok(b"tree t\n\ndocs: texto\n".to_vec())).unwrap(), false);
    assert_eq!(validate_commit(Ok(b"tree t\n".to_vec())).unwrap_err(), "objeto de commit sem mensagem.");
    assert_eq!(validate_commit(Ok(b"tree t\n\n\xff".to_vec())).unwrap_err(), "a mensagem precisa estar em UTF-8.");
    assert!(validate_commit(Ok(b"tree t\n\nmensagem solta\n".to_vec())).is_err());
}

#[test]
fn ranges_check_every_commit_and_report_each_failure() {
    let ids = commit_ids(b"a1\nb2\n").unwrap();
    assert_eq!(ids, vec!["a1", "b2"]);
    let verdicts = vec![Ok(false), Err("erro".to_owned())];
    assert_eq!(validate_range("f", "t", &ids, &verdicts).unwrap_err(), "1 de 2 commit(s) inválido(s):\nb2: erro");
    let (releases, line) = validate_range("f", "t", &ids, &vec![Ok(false), Ok(true)]).unwrap();
    assert!(releases);
    assert_eq!(line, "2 commit(s) válido(s) no intervalo f..t.");
    let empty: Vec<String> = Vec::new();
    assert_eq!(validate_range("f", "t", &empty, &Vec::new()).unwrap().1, "0 commit(s) válido(s) no intervalo f..t.");
    assert_eq!(commit_ids(&[0xff]).unwrap_err(), "lista de commits inválida.");
}

#[test]
fn shallow_history_cannot_report_partial_validation() {
    assert!(require_full_history(b"false\n").is_ok());
    assert_eq!(require_full_history(b"true\n").unwrap_err(), "a validação de intervalos exige histórico completo.");
}
