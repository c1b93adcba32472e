use bevy_xilem::activation::{
    collect_activation_uris, decode_activation_line, encode_activation_uris, ipc_token_for_app,
    is_valid_scheme, listener_thread_name, normalize_app_id, protocol_uri_scheme,
    single_instance_name, validate_config, ActivationConfig, ActivationError,
    ProtocolRegistration,
};
use std::path::PathBuf;

#[test]
fn collects_only_uri_like_arguments() {
    let args = vec![
        "--flag".to_string(),
        "pixiv://account/login?code=abc&via=login".to_string(),
        "https://example.com".to_string(),
        "plain-text".to_string(),
    ];

    let uris = collect_activation_uris(args);
    assert_eq!(uris.len(), 2);
    assert!(uris[0].starts_with("pixiv://"));
    assert!(uris[1].starts_with("https://"));
}

#[test]
fn app_id_normalization_is_stable() {
    assert_eq!(
        normalize_app_id("Pixiv Client@Desktop"),
        "pixiv-client-desktop"
    );
}

#[test]
fn empty_app_id_is_rejected() {
    let result = validate_config(&ActivationConfig::new("  "));
    assert!(result.is_err());
}

#[test]
fn protocol_builder_keeps_scheme() {
    let registration = ProtocolRegistration::new("pixiv", "Pixiv", None);
    assert_eq!(registration.scheme, "pixiv");
    assert_eq!(registration.description, "Pixiv");
}

#[test]
fn blank_app_id_error_names_the_field() {
    match validate_config(&ActivationConfig::new("\t \n")) {
        Err(ActivationError::InvalidConfig(reason)) => assert_eq!(reason, "app_id cannot be empty"),
        other => panic!("unexpected result: {other:?}"),
    }
    assert!(validate_config(&ActivationConfig::new(" app ")).is_ok());
}

#[test]
fn collected_uris_are_trimmed() {
    let uris = collect_activation_uris(vec!["  myapp://open  ".to_string(), "://".to_string()]);
    assert_eq!(uris, vec!["myapp://open".to_string(), "://".to_string()]);
}

#[test]
fn names_derive_from_normalized_app_id() {
    assert_eq!(single_instance_name("My App"), "my-app");
    assert_eq!(listener_thread_name("My App"), "my-app-activation-listener");
    assert_eq!(ipc_token_for_app("My.App2"), "my-app2.activation");
    assert_eq!(normalize_app_id("Ünï"), "-n-");
}

#[test]
fn scheme_validation_follows_rfc3986() {
    assert!(is_valid_scheme("pixiv"));
    assert!(is_valid_scheme("web+app.v2-beta"));
    assert!(!is_valid_scheme(""));
    assert!(!is_valid_scheme("2fa"));
    assert!(!is_valid_scheme("my app"));
}

#[test]
fn invalid_scheme_is_refused_before_registration() {
    let registration = ProtocolRegistration::new("bad scheme", "Bad", None);
    match protocol_uri_scheme(registration, PathBuf::from("/usr/bin/app")) {
        Err(ActivationError::InvalidConfig(reason)) => {
            assert_eq!(reason, "scheme `bad scheme` is invalid")
        }
        other => panic!("unexpected result: {other:?}"),
    }
}

#[test]
fn valid_scheme_builds_registration() {
    let registration = ProtocolRegistration::new("pixiv", "Pixiv", None)
        .with_icon(PathBuf::from("/usr/share/icons/pixiv.png"));
    let scheme = protocol_uri_scheme(registration, PathBuf::from("/usr/bin/pixiv"))
        .expect("valid scheme");
    assert_eq!(scheme.scheme, "pixiv");
    assert_eq!(scheme.description, "Pixiv");
    assert_eq!(scheme.executable, PathBuf::from("/usr/bin/pixiv"));
    assert_eq!(scheme.icon, Some(PathBuf::from("/usr/share/icons/pixiv.png")));
}

#[test]
fn forwarded_uris_round_trip_through_lines() {
    let uris = vec!["a://one".to_string(), "b://two".to_string()];
    let payload = encode_activation_uris(&uris);
    assert_eq!(payload, "a://one\nb://two\n");
    let decoded: Vec<String> = payload
        .split_inclusive('\n')
        .filter_map(decode_activation_line)
        .collect();
    assert_eq!(decoded, uris);
    assert_eq!(decode_activation_line("   \n"), None);
}
