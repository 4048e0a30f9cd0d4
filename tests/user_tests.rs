use hdm_api::user::{
    authentication_result, code_matches, AuthError, IdentitySources, ProviderOutcome,
    TwoFactorMethod, User,
};

const RFC_SECRET: &str = "12345678901234567890";

fn sources(user: Option<&str>, logname: Option<&str>, account: Option<&str>) -> IdentitySources {
    IdentitySources {
        user_var: user.map(|s| s.to_string()),
        logname_var: logname.map(|s| s.to_string()),
        account: account.map(|s| s.to_string()),
    }
}

fn user(method: TwoFactorMethod, secret: Option<&str>) -> User {
    User::new("alice", "hyprdm", method, secret.map(|s| s.to_string()), &sources(None, None, None))
}

#[test]
fn explicit_username_and_service_are_kept() {
    let u = User::new("alice", "hyprdm", TwoFactorMethod::Disabled, None, &sources(Some("bob"), None, None));
    assert_eq!(u.username, "alice");
    assert_eq!(u.pam_service, "hyprdm");
}

#[test]
fn placeholder_username_is_detected_in_order() {
    let u = User::new("", "", TwoFactorMethod::Disabled, None, &sources(Some("bob"), Some("carol"), Some("dave")));
    assert_eq!(u.username, "bob");
    let u = User::new("user", "", TwoFactorMethod::Disabled, None, &sources(Some(""), Some("carol"), Some("dave")));
    assert_eq!(u.username, "carol");
    let u = User::new("user", "", TwoFactorMethod::Disabled, None, &sources(None, Some(""), Some("dave")));
    assert_eq!(u.username, "dave");
    let u = User::new("", "", TwoFactorMethod::Disabled, None, &sources(None, None, None));
    assert_eq!(u.username, "unknown");
}

#[test]
fn placeholder_services_fall_back() {
    for p in ["", "login", "login_service", "default"] {
        let u = User::new("alice", p, TwoFactorMethod::Disabled, None, &sources(None, None, None));
        assert_eq!(u.pam_service, "system-login");
    }
    let u = User::new("alice", "gdm-password", TwoFactorMethod::Disabled, None, &sources(None, None, None));
    assert_eq!(u.pam_service, "gdm-password");
}

#[test]
fn counter_code_advances_only_on_match() {
    let mut u = user(TwoFactorMethod::HOTP { counter: 0 }, Some(RFC_SECRET));
    assert!(!u.verify_2fa("287082", 0));
    assert_eq!(u.twofactor_method, TwoFactorMethod::HOTP { counter: 0 });
    assert!(u.verify_2fa("755224", 0));
    assert_eq!(u.twofactor_method, TwoFactorMethod::HOTP { counter: 1 });
    assert!(!u.verify_2fa("755224", 0));
    assert_eq!(u.twofactor_method, TwoFactorMethod::HOTP { counter: 1 });
    assert!(u.verify_2fa("287082", 0));
    assert_eq!(u.twofactor_method, TwoFactorMethod::HOTP { counter: 2 });
}

#[test]
fn time_code_uses_thirty_second_steps() {
    let mut u = user(TwoFactorMethod::TOTP, Some(RFC_SECRET));
    assert!(u.verify_2fa("287082", 59));
    assert!(u.verify_2fa("755224", 29));
    assert!(!u.verify_2fa("755224", 30));
    assert_eq!(u.twofactor_method, TwoFactorMethod::TOTP);
}

#[test]
fn code_without_secret_is_refused() {
    let mut u = user(TwoFactorMethod::HOTP { counter: 0 }, None);
    assert!(!u.verify_2fa("755224", 0));
    assert_eq!(u.twofactor_method, TwoFactorMethod::HOTP { counter: 0 });
    let mut u = user(TwoFactorMethod::TOTP, None);
    assert!(!u.verify_2fa("755224", 0));
}

#[test]
fn disabled_second_factor_accepts_any_code() {
    let mut u = user(TwoFactorMethod::Disabled, None);
    assert!(u.verify_2fa("", 0));
    assert!(u.verify_2fa("000000", 12345));
}

#[test]
fn code_match_is_exact_decimal() {
    assert!(code_matches("755224", 755224));
    assert!(code_matches("0", 0));
    assert!(code_matches("42", 42));
    assert!(!code_matches("042", 42));
    assert!(!code_matches("42 ", 42));
    assert!(!code_matches("", 0));
}

#[test]
fn authentication_fails_closed() {
    assert_eq!(authentication_result(ProviderOutcome::Accepted), Ok(()));
    assert_eq!(authentication_result(ProviderOutcome::Rejected), Err(AuthError::Rejected));
    assert_eq!(authentication_result(ProviderOutcome::InitFailed), Err(AuthError::ProviderInit));
}

#[test]
fn detect_system_username_skips_empty_variables() {
    assert_eq!(User::detect_system_username(&sources(Some(""), Some(""), Some("root"))), "root");
}
