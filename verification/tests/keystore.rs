use bananaslice::{AppInfo, GenerateResponse, KeyringError, api_key_from_contents};

#[test]
fn key_contents_are_trimmed() {
    assert_eq!(api_key_from_contents("  my-key \n").unwrap(), "my-key");
    assert_eq!(api_key_from_contents("plain").unwrap(), "plain");
}

#[test]
fn blank_contents_count_as_not_found() {
    assert!(matches!(api_key_from_contents(""), Err(KeyringError::KeyNotFound)));
    assert!(matches!(api_key_from_contents("   \n\t "), Err(KeyringError::KeyNotFound)));
}

#[test]
fn keyring_error_messages() {
    assert_eq!(KeyringError::KeyNotFound.message(), "API key not found");
    assert_eq!(
        KeyringError::AccessError(String::from("denied")).message(),
        "Failed to access storage: denied"
    );
}

#[test]
fn app_info_carries_the_fixed_name() {
    let info = AppInfo::new(String::from("1.2.3"));
    assert_eq!(info.name, "BananaSlice");
    assert_eq!(info.version, "1.2.3");
}

#[test]
fn generate_response_sets_exactly_one_side() {
    let ok = GenerateResponse::ok(String::from("IMG"));
    assert!(ok.success);
    assert_eq!(ok.image_base64.as_deref(), Some("IMG"));
    assert!(ok.error.is_none());

    let failed = GenerateResponse::failed(String::from("boom"));
    assert!(!failed.success);
    assert!(failed.image_base64.is_none());
    assert_eq!(failed.error.as_deref(), Some("boom"));
}
