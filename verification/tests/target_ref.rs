use fusionner::{RemoteAnswer, RemoteHead, RemoteQuery, RepositoryConfiguration, ResolveError};

fn config_init(target_ref: Option<&str>) -> RepositoryConfiguration {
    RepositoryConfiguration {
        uri: "file:///tmp/upstream".to_string(),
        checkout_path: "test".to_string(),
        remote: None,
        notes_namespace: None,
        fetch_refspecs: vec![],
        push_refspecs: vec![],
        username: None,
        password: None,
        key: None,
        key_passphrase: None,
        target_ref: target_ref.map(|s| s.to_string()),
        signature_name: None,
        signature_email: None,
    }
}

fn head(name: &str, symbolic_target: Option<&str>) -> RemoteHead {
    RemoteHead::new(name.to_string(), symbolic_target.map(|s| s.to_string())).unwrap()
}

/// A freshly initialised repository: `HEAD` points at the one branch.
fn raw_repo_ls() -> Vec<RemoteHead> {
    vec![head("HEAD", Some("refs/heads/master")), head("refs/heads/master", None)]
}

fn snapshot() -> Vec<RemoteHead> {
    vec![
        head("HEAD", Some("refs/heads/master")),
        head("refs/heads/master", None),
        head("refs/pull/42/head", None),
    ]
}

/// Asks the stand-in remote what the configuration wants to know.
fn ask(
    config: &RepositoryConfiguration,
    ls: Vec<RemoteHead>,
    default: Option<&str>,
) -> RemoteAnswer<String> {
    match config.target_query() {
        RemoteQuery::ListReferences => RemoteAnswer::References(ls),
        RemoteQuery::DefaultReference => {
            RemoteAnswer::DefaultReference(default.map(|s| s.to_string()))
        }
    }
}

#[test]
fn target_ref_is_resolved_to_head_by_default() {
    let config = config_init(None);
    let answer = ask(&config, raw_repo_ls(), Some("refs/heads/master"));
    let target_ref = config.resolve_target_ref(answer).unwrap();
    assert_eq!("refs/heads/master", target_ref);
}

#[test]
fn target_ref_is_resolved_correctly() {
    let config = config_init(Some("refs/heads/master"));
    let answer = ask(&config, raw_repo_ls(), Some("refs/heads/master"));
    let target_ref = config.resolve_target_ref(answer).unwrap();
    assert_eq!("refs/heads/master", target_ref);
}

#[test]
fn invalid_target_ref_should_error() {
    let config = config_init(Some("refs/heads/unknown"));
    let answer = ask(&config, raw_repo_ls(), Some("refs/heads/master"));
    assert!(config.resolve_target_ref(answer).is_err());
}

#[test]
fn query_is_the_listing_for_a_configured_target() {
    assert_eq!(
        config_init(Some("refs/heads/master")).target_query(),
        RemoteQuery::ListReferences
    );
    assert_eq!(config_init(None).target_query(), RemoteQuery::DefaultReference);
}

#[test]
fn default_confirms_no_configured_target() {
    let config = config_init(Some("refs/heads/master"));
    let answer: RemoteAnswer<String> =
        RemoteAnswer::DefaultReference(Some("refs/heads/master".to_string()));
    assert_eq!(
        config.resolve_target_ref(answer),
        Err(ResolveError::TargetNotFound("refs/heads/master".to_string()))
    );
}

#[test]
fn listing_holds_no_default() {
    let config = config_init(None);
    let answer: RemoteAnswer<String> = RemoteAnswer::References(snapshot());
    assert_eq!(config.resolve_target_ref(answer), Err(ResolveError::NoDefaultHead));
}

#[test]
fn default_of_the_remote_is_the_target_when_none_is_configured() {
    let config = config_init(None);
    let answer = ask(&config, snapshot(), Some("refs/heads/master"));
    assert_eq!(config.resolve_target_ref(answer), Ok("refs/heads/master".to_string()));
}

#[test]
fn missing_default_is_reported() {
    let config = config_init(None);
    let answer = ask(&config, snapshot(), None);
    assert_eq!(config.resolve_target_ref(answer), Err(ResolveError::NoDefaultHead));
}

#[test]
fn unknown_target_is_reported_with_its_name() {
    let config = config_init(Some("refs/heads/unknown"));
    let answer = ask(&config, snapshot(), Some("refs/heads/master"));
    assert_eq!(
        config.resolve_target_ref(answer),
        Err(ResolveError::TargetNotFound("refs/heads/unknown".to_string()))
    );
}

#[test]
fn configured_target_is_returned_unchanged() {
    let config = config_init(Some("refs/pull/42/head"));
    let answer = ask(&config, snapshot(), Some("refs/heads/master"));
    assert_eq!(config.resolve_target_ref(answer), Ok("refs/pull/42/head".to_string()));
}

#[test]
fn target_is_found_through_a_symbolic_reference() {
    let config = config_init(Some("refs/heads/main"));
    let ls = vec![head("HEAD", Some("refs/heads/main")), head("refs/tags/v1", None)];
    let answer = ask(&config, ls, None);
    assert_eq!(config.resolve_target_ref(answer), Ok("refs/heads/main".to_string()));
}

#[test]
fn name_of_a_symbolic_reference_is_no_target() {
    let config = config_init(Some("HEAD"));
    let answer = ask(&config, snapshot(), None);
    assert_eq!(
        config.resolve_target_ref(answer),
        Err(ResolveError::TargetNotFound("HEAD".to_string()))
    );
}

#[test]
fn target_is_not_found_on_an_empty_remote() {
    let config = config_init(Some("refs/heads/master"));
    let answer = ask(&config, vec![], None);
    assert_eq!(
        config.resolve_target_ref(answer),
        Err(ResolveError::TargetNotFound("refs/heads/master".to_string()))
    );
}

#[test]
fn target_must_match_verbatim() {
    let config = config_init(Some("refs/heads/master/"));
    let answer = ask(&config, snapshot(), None);
    assert_eq!(
        config.resolve_target_ref(answer),
        Err(ResolveError::TargetNotFound("refs/heads/master/".to_string()))
    );
}

#[test]
fn failure_of_the_remote_is_handed_on() {
    let configured = config_init(Some("refs/heads/master"));
    assert_eq!(
        configured.resolve_target_ref(RemoteAnswer::Failed("connection reset".to_string())),
        Err(ResolveError::Remote("connection reset".to_string()))
    );
    let unconfigured = config_init(None);
    assert_eq!(
        unconfigured.resolve_target_ref(RemoteAnswer::Failed(7u8)),
        Err(ResolveError::Remote(7u8))
    );
}
