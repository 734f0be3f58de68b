use prefork::discovery::{
    discover_socket, resolve_priority, DiscoveryConfig, DiscoveryError, EnvStrategy,
    LocalFileStrategy, Visibility,
};

#[test]
fn test_local_file_strategy_default() {
    let strategy = LocalFileStrategy::default();
    assert_eq!(strategy.socket_names, None);
    assert_eq!(strategy.visibility, None);
}

#[test]
fn test_local_file_strategy_with_names() {
    let strategy = LocalFileStrategy::new()
        .with_socket_names(vec!["test.sock".to_string(), "demo.sock".to_string()]);
    let _expected_paths = ["./test.sock", "./.test.sock", "./demo.sock", "./.demo.sock"];
    assert_eq!(
        strategy.socket_names,
        Some(vec!["test.sock".to_string(), "demo.sock".to_string()])
    );
    assert_eq!(strategy.visibility, None);
}

#[test]
fn test_local_file_strategy_not_hidden() {
    let strategy = LocalFileStrategy::new().with_visibility(Visibility::NotHidden);
    assert_eq!(strategy.visibility, Some(Visibility::NotHidden));
}

#[test]
fn test_local_file_strategy_hidden() {
    let strategy = LocalFileStrategy::new().with_visibility(Visibility::Hidden);
    assert_eq!(strategy.visibility, Some(Visibility::Hidden));
}

#[test]
fn test_visibility_default() {
    assert_eq!(Visibility::default(), Visibility::Both);
}

#[test]
fn test_create_strategy_not_hidden() {
    let strategy = LocalFileStrategy::new()
        .with_socket_names(vec!["test.sock".to_string()])
        .with_visibility(Visibility::NotHidden);
    assert_eq!(strategy.create(), "./test.sock");
}

#[test]
fn test_create_strategy_hidden() {
    let strategy = LocalFileStrategy::new()
        .with_socket_names(vec!["test.sock".to_string()])
        .with_visibility(Visibility::Hidden);
    assert_eq!(strategy.create(), "./.test.sock");
}

#[test]
fn test_create_strategy_both() {
    let strategy = LocalFileStrategy::new()
        .with_socket_names(vec!["test.sock".to_string()])
        .with_visibility(Visibility::Both);
    assert_eq!(strategy.create(), "./.test.sock");
}

#[test]
fn test_create_strategy_default() {
    let strategy = LocalFileStrategy::default();
    assert_eq!(strategy.create(), "./.pfd.sock");
}

#[test]
fn test_env_decision_with_value() {
    let strategy = EnvStrategy { env_var: "TEST_SOCKET".to_string() };
    assert_eq!(
        strategy.discover_value(Some("/tmp/test.sock".to_string())),
        Some("/tmp/test.sock".to_string())
    );
}

#[test]
fn test_env_decision_empty() {
    let strategy = EnvStrategy { env_var: "TEST_SOCKET".to_string() };
    assert_eq!(strategy.discover_value(Some("".to_string())), None);
}

#[test]
fn test_env_decision_not_set() {
    let strategy = EnvStrategy { env_var: "TEST_SOCKET".to_string() };
    assert_eq!(strategy.discover_value(None), None);
}

#[test]
fn test_candidate_paths_default() {
    let strategy = LocalFileStrategy::default();
    assert_eq!(
        strategy.candidate_paths(),
        vec!["./pfd.sock".to_string(), "./.pfd.sock".to_string()]
    );
}

#[test]
fn test_candidate_paths_ordering() {
    let strategy = LocalFileStrategy::new()
        .with_socket_names(vec!["a.sock".to_string(), "b.sock".to_string()]);
    assert_eq!(
        strategy.candidate_paths(),
        vec![
            "./a.sock".to_string(),
            "./.a.sock".to_string(),
            "./b.sock".to_string(),
            "./.b.sock".to_string(),
        ]
    );
}

#[test]
fn test_discovery_priority() {
    // Explicit override wins unconditionally.
    assert_eq!(
        resolve_priority(
            Some("A".to_string()),
            Some("B".to_string()),
            Some("./pfd.sock".to_string())
        ),
        Ok("A".to_string())
    );
    // Without the override the set, non-empty environment value wins.
    assert_eq!(
        resolve_priority(None, Some("B".to_string()), Some("./pfd.sock".to_string())),
        Ok("B".to_string())
    );
    // Without either, the local file found on disk wins.
    assert_eq!(
        resolve_priority(None, None, Some("./pfd.sock".to_string())),
        Ok("./pfd.sock".to_string())
    );
    // An empty environment value is absent, not an override of the local hit.
    assert_eq!(
        resolve_priority(None, Some("".to_string()), Some("./pfd.sock".to_string())),
        Ok("./pfd.sock".to_string())
    );
}

#[test]
fn test_discovery_absence() {
    assert_eq!(
        resolve_priority(None, None, None),
        Err(DiscoveryError::EndpointNotFound)
    );
}

#[test]
fn test_local_discover_absent() {
    let strategy = LocalFileStrategy::new()
        .with_socket_names(vec!["absent_prefork_probe.sock".to_string()]);
    assert_eq!(strategy.discover(), None);
}

#[test]
fn test_discover_socket_override_and_env() {
    let config = DiscoveryConfig { socket_arg: Some("A".to_string()) };
    assert_eq!(
        discover_socket(config, Some("B".to_string())),
        Ok("A".to_string())
    );
    let config = DiscoveryConfig { socket_arg: None };
    assert_eq!(
        discover_socket(config, Some("B".to_string())),
        Ok("B".to_string())
    );
}
