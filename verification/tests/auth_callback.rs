use ely_app::auth_callback::{
    auth_callback_badge, auth_callback_detail, auth_callback_result, auth_callback_state,
    query_value, AuthCallbackState,
};

#[test]
fn auth_callback_state_reads_code() {
    assert_eq!(
        auth_callback_state("ely://auth/callback?code=abc&state=nonce"),
        AuthCallbackState::CodeReceived
    );
}

#[test]
fn auth_callback_state_reads_provider_error() {
    assert_eq!(
        auth_callback_state("ely://auth/callback?error=access_denied"),
        AuthCallbackState::ProviderError("access_denied".to_string())
    );
}

#[test]
fn auth_callback_state_handles_missing_code() {
    assert_eq!(auth_callback_state("ely://auth/callback"), AuthCallbackState::MissingCode);
}

#[test]
fn query_value_filters_other_routes() {
    assert_eq!(query_value("ely://history?code=abc", "code"), None);
}

#[test]
fn query_value_takes_first_matching_pair() {
    assert_eq!(
        query_value("ely://auth/callback?state=x&code=one&code=two", "code"),
        Some("one".to_string())
    );
    assert_eq!(query_value("ely://auth/callback?code", "code"), None);
    assert_eq!(query_value("ely://auth/callback?code=a=b", "code"), Some("a=b".to_string()));
    assert_eq!(query_value("ely://auth/callback?code=", "code"), Some(String::new()));
}

#[test]
fn empty_error_falls_back_to_code() {
    assert_eq!(
        auth_callback_state("ely://auth/callback?error=&code=abc"),
        AuthCallbackState::CodeReceived
    );
    assert_eq!(
        auth_callback_state("ely://auth/callback?code="),
        AuthCallbackState::MissingCode
    );
}

#[test]
fn auth_callback_labels_follow_state() {
    let error = AuthCallbackState::ProviderError("access_denied".to_string());
    assert_eq!(auth_callback_badge(&AuthCallbackState::CodeReceived), "Code received");
    assert_eq!(auth_callback_badge(&error), "Provider error");
    assert_eq!(auth_callback_badge(&AuthCallbackState::MissingCode), "Callback pending");
    assert_eq!(auth_callback_result(&error), "access_denied");
    assert_eq!(auth_callback_result(&AuthCallbackState::CodeReceived), "Authorization code");
    assert_eq!(auth_callback_result(&AuthCallbackState::MissingCode), "Awaiting code");
    assert_eq!(auth_callback_detail(&error), "Provider returned an OAuth error");
    assert_eq!(auth_callback_detail(&AuthCallbackState::MissingCode), "Callback code missing");
    assert_eq!(
        auth_callback_detail(&AuthCallbackState::CodeReceived),
        "Ready for session exchange"
    );
}
