use codify::config::{
    ConfigError, StartupPlan, parse_guild_scope, plan_exit_code, plan_startup, require_token,
};

#[test]
fn unset_guild_scope_is_missing() {
    assert!(matches!(parse_guild_scope(None), Err(ConfigError::MissingGuildScope)));
}

#[test]
fn valid_guild_scope_parses_to_its_value() {
    let r = parse_guild_scope(Some("123456789012345678".to_string()));
    assert_eq!(r.unwrap().id, 123456789012345678);
    assert_eq!(parse_guild_scope(Some("0".to_string())).unwrap().id, 0);
    assert_eq!(
        parse_guild_scope(Some("18446744073709551615".to_string())).unwrap().id,
        u64::MAX
    );
}

#[test]
fn malformed_guild_scope_reports_the_text() {
    for bad in ["", "12a", "-5", "+5", " 7", "18446744073709551616", "ten"] {
        match parse_guild_scope(Some(bad.to_string())) {
            Err(ConfigError::MalformedGuildScope(t)) => assert_eq!(t, bad),
            other => panic!("{:?} accepted for {:?}", other, bad),
        }
    }
}

#[test]
fn token_is_taken_as_is_when_present() {
    assert_eq!(require_token(Some("gateway-token".to_string())).unwrap(), "gateway-token");
    assert!(matches!(require_token(None), Err(ConfigError::MissingToken)));
}

#[test]
fn missing_config_file_bootstraps_and_exits_cleanly() {
    let p = plan_startup(false, Some("t".to_string()), Some("1".to_string()));
    assert!(matches!(p, StartupPlan::BootstrapConfigAndExit));
    assert_eq!(plan_exit_code(&p), Some(0));
}

#[test]
fn unset_guild_scope_exits_nonzero_before_any_connection() {
    let p = plan_startup(true, Some("token".to_string()), None);
    match &p {
        StartupPlan::FailConfiguration(ConfigError::MissingGuildScope) => {}
        other => panic!("startup must fail on a missing guild scope, got {:?}", kind(other)),
    }
    // non-zero exit, and the plan never reaches the gateway
    let code = plan_exit_code(&p).expect("a failing plan must exit");
    assert_ne!(code, 0);
    assert!(!matches!(p, StartupPlan::Connect { .. }));
}

#[test]
fn malformed_guild_scope_fails_startup() {
    let p = plan_startup(true, Some("token".to_string()), Some("17cats".to_string()));
    match p {
        StartupPlan::FailConfiguration(ConfigError::MalformedGuildScope(t)) => {
            assert_eq!(t, "17cats")
        }
        _ => panic!("startup must fail on a malformed guild scope"),
    }
}

#[test]
fn missing_token_fails_startup_after_the_scope_is_read() {
    let p = plan_startup(true, None, Some("42".to_string()));
    assert!(matches!(p, StartupPlan::FailConfiguration(ConfigError::MissingToken)));
}

#[test]
fn complete_configuration_connects() {
    let p = plan_startup(true, Some("token".to_string()), Some("42".to_string()));
    match &p {
        StartupPlan::Connect { token, scope } => {
            assert_eq!(token, "token");
            assert_eq!(scope.id, 42);
        }
        _ => panic!("a complete configuration must connect"),
    }
    assert_eq!(plan_exit_code(&p), None);
}

fn kind(p: &StartupPlan) -> &'static str {
    match p {
        StartupPlan::BootstrapConfigAndExit => "bootstrap",
        StartupPlan::FailConfiguration(_) => "fail",
        StartupPlan::Connect { .. } => "connect",
    }
}
