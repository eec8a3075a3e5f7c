use open62541::ua::{ByteString, MessageSecurityMode};
use open62541::{
    CertificateVerification, Certificate, ClientBuilder, Duration, Password, PrivateKey,
    UserIdentityToken,
};

#[test]
fn client_defaults() {
    let config = ClientBuilder::default().into_config();
    assert_eq!(config.timeout, 5000);
    assert_eq!(config.secure_channel_life_time, 600_000);
    assert_eq!(config.requested_session_timeout, 1_200_000);
    assert_eq!(config.connectivity_check_interval, 0);
    assert!(config.client_description.is_none());
    assert!(config.user_identity_token.is_none());
    assert_eq!(config.security_mode, MessageSecurityMode::invalid());
    assert!(config.security_policy_uri.is_empty());
    assert!(matches!(config.certificate_verification, CertificateVerification::Default));
    assert!(config.encryption.is_none());
    assert!(config.private_key_password_callback.is_none());
}

#[test]
fn client_settings_in_milliseconds() {
    let config = ClientBuilder::default()
        .timeout(Duration::from_secs(3))
        .secure_channel_life_time(Duration::from_millis(1234))
        .requested_session_timeout(Duration::from_secs(60))
        .connectivity_check_interval(Some(Duration::from_millis(250)))
        .security_mode(MessageSecurityMode::sign_and_encrypt())
        .security_policy_uri("http://opcfoundation.org/UA/SecurityPolicy#Basic256Sha256".to_string())
        .accept_all()
        .into_config();
    assert_eq!(config.timeout, 3000);
    assert_eq!(config.secure_channel_life_time, 1234);
    assert_eq!(config.requested_session_timeout, 60_000);
    assert_eq!(config.connectivity_check_interval, 250);
    assert_eq!(config.security_mode, MessageSecurityMode::sign_and_encrypt());
    assert!(config.security_policy_uri.ends_with("Basic256Sha256"));
    assert!(matches!(config.certificate_verification, CertificateVerification::AcceptAll));

    let no_check = ClientBuilder::default()
        .connectivity_check_interval(Some(Duration::from_millis(10)))
        .connectivity_check_interval(None)
        .into_config();
    assert_eq!(no_check.connectivity_check_interval, 0);
}

#[test]
fn client_identity_token() {
    let token = UserIdentityToken::UserName {
        policy_id: "username".to_string(),
        user_name: "alice".to_string(),
        password: "secret".to_string(),
    };
    let config = ClientBuilder::default().user_identity_token(&token).into_config();
    assert_eq!(config.user_identity_token, Some(token));
}

#[test]
fn default_encryption_keeps_certificate_and_key() {
    let certificate = Certificate::from_bytes(&[1, 2, 3]);
    let private_key = PrivateKey::from_bytes(&[4, 5]);
    let config = ClientBuilder::default_encryption(&certificate, &private_key).into_config();
    assert_eq!(config.timeout, 5000);
    let (c, k) = config.encryption.expect("encryption set");
    assert_eq!(c.as_bytes(), &[1, 2, 3]);
    assert_eq!(k.as_bytes(), &[4, 5]);
}

#[test]
fn certificate_byte_strings() {
    assert!(Certificate::from_byte_string(ByteString::invalid()).is_none());
    let certificate = Certificate::from_byte_string(ByteString::new(&[8, 9])).expect("valid");
    assert_eq!(certificate.as_bytes(), &[8, 9]);
    assert_eq!(certificate.as_byte_string().as_bytes(), Some(&[8u8, 9][..]));
    assert_eq!(certificate.clone().as_bytes(), &[8, 9]);

    assert!(PrivateKey::from_byte_string(ByteString::invalid()).is_none());
    let key = PrivateKey::from_byte_string(ByteString::new(&[])).expect("empty but valid");
    assert!(key.as_bytes().is_empty());
    assert!(ByteString::invalid().is_invalid());
    assert!(!ByteString::new(&[]).is_invalid());
}

#[test]
fn password_keeps_text() {
    assert_eq!(Password::new("hunter2".to_string()).as_str(), "hunter2");
}

#[test]
fn client_durations_just_below_the_limit() {
    let config = ClientBuilder::default()
        .timeout(Duration::from_millis(4_294_967_294))
        .secure_channel_life_time(Duration::from_millis(4_294_967_294))
        .requested_session_timeout(Duration::from_millis(4_294_967_294))
        .connectivity_check_interval(Some(Duration::from_millis(4_294_967_294)))
        .into_config();
    assert_eq!(config.timeout, 4_294_967_294);
    assert_eq!(config.secure_channel_life_time, 4_294_967_294);
    assert_eq!(config.requested_session_timeout, 4_294_967_294);
    assert_eq!(config.connectivity_check_interval, 4_294_967_294);
}
