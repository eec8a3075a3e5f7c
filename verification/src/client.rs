//! Client configuration.
use vstd::prelude::*;

use crate::ua::{LocalizedText, MessageSecurityMode};
use crate::{Certificate, CustomCertificateVerification, Duration, PrivateKey, PrivateKeyPasswordCallback};

verus! {

/// Description of a client or server application.
#[derive(Debug, Clone)]
pub struct ApplicationDescription {
    pub application_uri: String,
    pub product_uri: String,
    pub application_name: LocalizedText,
    /// 0 server, 1 client, 2 client and server, 3 discovery server.
    pub application_type: u32,
}

/// Identity with which a client activates its session.
#[derive(Debug, Clone, PartialEq, Eq)]
pub enum UserIdentityToken {
    Anonymous { policy_id: String },
    UserName { policy_id: String, user_name: String, password: String },
}

impl UserIdentityToken {
    /// Copies the token.
    pub fn duplicate(&self) -> (r: UserIdentityToken)
        ensures
            r == *self,
    {
        match self {
            UserIdentityToken::Anonymous { policy_id } => UserIdentityToken::Anonymous {
                policy_id: policy_id.clone(),
            },
            UserIdentityToken::UserName { policy_id, user_name, password } => {
                UserIdentityToken::UserName {
                    policy_id: policy_id.clone(),
                    user_name: user_name.clone(),
                    password: password.clone(),
                }
            },
        }
    }
}

/// How the certificate of the other side is verified.
pub enum CertificateVerification {
    /// The library's default verification (trust list).
    Default,
    /// Every certificate is accepted.
    AcceptAll,
    /// Verification by the given callbacks.
    Custom(Box<dyn CustomCertificateVerification>),
}

impl CertificateVerification {
    /// Verification that accepts every certificate.
    pub fn accept_all() -> (r: CertificateVerification)
        ensures
            r is AcceptAll,
    {
        CertificateVerification::AcceptAll
    }
}

/// Client configuration: what the client is built with before it connects.
pub struct ClientConfig {
    /// Response timeout, in milliseconds.
    pub timeout: u32,
    /// Life time of the secure channel, in milliseconds.
    pub secure_channel_life_time: u32,
    /// Requested session timeout, in milliseconds.
    pub requested_session_timeout: u32,
    /// Connectivity check interval, in milliseconds (0: no check).
    pub connectivity_check_interval: u32,
    /// Application description; `None` keeps the library's own.
    pub client_description: Option<ApplicationDescription>,
    /// Identity token; `None` stands for anonymous access.
    pub user_identity_token: Option<UserIdentityToken>,
    /// Security mode (invalid: take any the server offers).
    pub security_mode: MessageSecurityMode,
    /// Security policy URI (empty: take any the server offers).
    pub security_policy_uri: String,
    pub certificate_verification: CertificateVerification,
    /// Certificate and private key when encryption is enabled.
    pub encryption: Option<(Certificate, PrivateKey)>,
    pub private_key_password_callback: Option<Box<dyn PrivateKeyPasswordCallback>>,
}

/// Builder for the configuration of a client.
pub struct ClientBuilder(ClientConfig);

/// Milliseconds of a duration, as the client configuration holds them.
pub open spec fn millis(d: Duration) -> nat {
    Duration::spec_millis(d@)
}

impl ClientBuilder {
    /// The configuration built so far.
    pub closed spec fn config(self) -> ClientConfig {
        self.0
    }

    /// Creates builder from default client config with encryption.
    ///
    /// The certificate and private key are checked when the client is built from the
    /// configuration.
    pub fn default_encryption(local_certificate: &Certificate, private_key: &PrivateKey) -> (r:
        ClientBuilder)
        ensures
            r.config().timeout == 5000,
            r.config().secure_channel_life_time == 600_000,
            r.config().requested_session_timeout == 1_200_000,
            r.config().connectivity_check_interval == 0,
            r.config().client_description is None,
            r.config().user_identity_token is None,
            r.config().security_mode == MessageSecurityMode::spec_invalid(),
            r.config().security_policy_uri@ == Seq::<char>::empty(),
            r.config().certificate_verification is Default,
            r.config().encryption matches Some((c, k)) && c.spec_bytes()
                == local_certificate.spec_bytes() && k.spec_bytes() == private_key.spec_bytes(),
            r.config().private_key_password_callback is None,
    {
        let mut b = ClientBuilder::default();
        b.0.encryption = Some((local_certificate.clone(), private_key.clone()));
        b
    }

    /// Sets (response) timeout.
    ///
    /// The duration must be less than 4,294,967,295 milliseconds.
    pub fn timeout(self, timeout: Duration) -> (r: ClientBuilder)
        requires
            millis(timeout) < u32::MAX,
        ensures
            r.config() == (ClientConfig { timeout: millis(timeout) as u32, ..self.config() }),
    {
        let mut b = self;
        b.0.timeout = timeout.as_millis() as u32;
        b
    }

    /// Sets client description.
    pub fn client_description(self, client_description: ApplicationDescription) -> (r: ClientBuilder)
        ensures
            r.config() == (ClientConfig {
                client_description: Some(client_description),
                ..self.config()
            }),
    {
        let mut b = self;
        b.0.client_description = Some(client_description);
        b
    }

    /// Sets user identity token.
    pub fn user_identity_token(self, user_identity_token: &UserIdentityToken) -> (r: ClientBuilder)
        ensures
            r.config() == (ClientConfig {
                user_identity_token: Some(*user_identity_token),
                ..self.config()
            }),
    {
        let mut b = self;
        b.0.user_identity_token = Some(user_identity_token.duplicate());
        b
    }

    /// Sets security mode.
    pub fn security_mode(self, security_mode: MessageSecurityMode) -> (r: ClientBuilder)
        ensures
            r.config() == (ClientConfig { security_mode, ..self.config() }),
    {
        let mut b = self;
        b.0.security_mode = security_mode;
        b
    }

    /// Sets security policy URI.
    pub fn security_policy_uri(self, security_policy_uri: String) -> (r: ClientBuilder)
        ensures
            r.config() == (ClientConfig { security_policy_uri, ..self.config() }),
    {
        let mut b = self;
        b.0.security_policy_uri = security_policy_uri;
        b
    }

    /// Sets secure channel life time.
    ///
    /// The duration must be less than 4,294,967,295 milliseconds.
    pub fn secure_channel_life_time(self, secure_channel_life_time: Duration) -> (r: ClientBuilder)
        requires
            millis(secure_channel_life_time) < u32::MAX,
        ensures
            r.config() == (ClientConfig {
                secure_channel_life_time: millis(secure_channel_life_time) as u32,
                ..self.config()
            }),
    {
        let mut b = self;
        b.0.secure_channel_life_time = secure_channel_life_time.as_millis() as u32;
        b
    }

    /// Sets requested session timeout.
    ///
    /// The duration must be less than 4,294,967,295 milliseconds.
    pub fn requested_session_timeout(self, requested_session_timeout: Duration) -> (r: ClientBuilder)
        requires
            millis(requested_session_timeout) < u32::MAX,
        ensures
            r.config() == (ClientConfig {
                requested_session_timeout: millis(requested_session_timeout) as u32,
                ..self.config()
            }),
    {
        let mut b = self;
        b.0.requested_session_timeout = requested_session_timeout.as_millis() as u32;
        b
    }

    /// Sets connectivity check interval; `None` disables the check.
    ///
    /// The duration must be less than 4,294,967,295 milliseconds.
    pub fn connectivity_check_interval(self, connectivity_check_interval: Option<Duration>) -> (r:
        ClientBuilder)
        requires
            connectivity_check_interval matches Some(d) ==> millis(d) < u32::MAX,
        ensures
            r.config() == (ClientConfig {
                connectivity_check_interval: match connectivity_check_interval {
                    Some(d) => millis(d) as u32,
                    None => 0,
                },
                ..self.config()
            }),
    {
        let mut b = self;
        b.0.connectivity_check_interval = match connectivity_check_interval {
            Some(d) => d.as_millis() as u32,
            None => 0,
        };
        b
    }

    /// Disables server certificate checks.
    pub fn accept_all(self) -> (r: ClientBuilder)
        ensures
            r.config() == (ClientConfig {
                certificate_verification: CertificateVerification::AcceptAll,
                ..self.config()
            }),
    {
        let mut b = self;
        b.0.certificate_verification = CertificateVerification::AcceptAll;
        b
    }

    /// Sets certificate verification.
    pub fn certificate_verification(self, certificate_verification: CertificateVerification) -> (r:
        ClientBuilder)
        ensures
            r.config() == (ClientConfig { certificate_verification, ..self.config() }),
    {
        let mut b = self;
        b.0.certificate_verification = certificate_verification;
        b
    }

    /// Sets private-key password callback.
    pub fn private_key_password_callback(
        self,
        private_key_password_callback: Box<dyn PrivateKeyPasswordCallback>,
    ) -> (r: ClientBuilder)
        ensures
            r.config() == (ClientConfig {
                private_key_password_callback: Some(private_key_password_callback),
                ..self.config()
            }),
    {
        let mut b = self;
        b.0.private_key_password_callback = Some(private_key_password_callback);
        b
    }

    /// Takes the configuration built.
    pub fn into_config(self) -> (r: ClientConfig)
        ensures
            r == self.config(),
    {
        self.0
    }
}

impl Default for ClientBuilder {
    /// Builder from the default client configuration: 5 s timeout, 10 min secure channel life
    /// time, 20 min session timeout, no connectivity check.
    fn default() -> (r: ClientBuilder)
        ensures
            r.config().timeout == 5000,
            r.config().secure_channel_life_time == 600_000,
            r.config().requested_session_timeout == 1_200_000,
            r.config().connectivity_check_interval == 0,
            r.config().client_description is None,
            r.config().user_identity_token is None,
            r.config().security_mode == MessageSecurityMode::spec_invalid(),
            r.config().security_policy_uri@ == Seq::<char>::empty(),
            r.config().certificate_verification is Default,
            r.config().encryption is None,
            r.config().private_key_password_callback is None,
    {
        ClientBuilder(
            ClientConfig {
                timeout: 5000,
                secure_channel_life_time: 600_000,
                requested_session_timeout: 1_200_000,
                connectivity_check_interval: 0,
                client_description: None,
                user_identity_token: None,
                security_mode: MessageSecurityMode::invalid(),
                security_policy_uri: String::new(),
                certificate_verification: CertificateVerification::Default,
                encryption: None,
                private_key_password_callback: None,
            },
        )
    }
}

} // verus!
