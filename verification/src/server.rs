//! Server configuration, and the interpretation of results of server calls.
mod access_control;
mod data_source;
mod lifecycle_manager;
mod method_callback;
mod method_types;
mod node_types;

pub use self::access_control::DefaultAccessControl;
pub use self::data_source::{
    callback_status, data_source_status_code, lemma_callback_status_good,
    lemma_data_source_status, DataSource, DataSourceError, DataSourceReadContext,
    DataSourceResult, DataSourceWriteContext,
};
pub use self::lifecycle_manager::{
    constructor_status_code, lemma_node_type_lifecycle_once, LifecycleManager,
};
pub use self::method_callback::{
    call_status, fill_output_arguments, lemma_call_status_good, lemma_method_callback_status,
    method_callback_status_code, MethodCallback, MethodCallbackContext, MethodCallbackError,
    MethodCallbackResult,
};
pub use self::method_types::MethodNodeArgumentsNodeIds;
pub use self::node_types::{
    lemma_display_name_is_field, null_node_id, same_text, Argument, Attributes, MethodAttributes, MethodNode, Node,
    NodeTypeLifecycle, ObjectAttributes, ObjectNode, VariableAttributes, VariableNode,
};

use vstd::prelude::*;
use vstd::string::StringExecFns;

use crate::ua::{self, ContinuationPoint, ReferenceDescription, StatusCode};
use crate::{BrowseResult, Error, Result, DEFAULT_PORT_NUMBER};

verus! {

/// Security setup a server configuration starts from.
pub enum ServerSecurity {
    /// Minimal configuration: no encryption; the optional certificate is announced.
    Minimal { certificate: Option<Vec<u8>> },
    /// Secure and non-secure (unencrypted) security policies.
    WithSecurityPolicies { certificate: Vec<u8>, private_key: Vec<u8> },
    /// Only secure (encrypted) security policies.
    WithSecureSecurityPolicies { certificate: Vec<u8>, private_key: Vec<u8> },
}

/// Server configuration: what the server is built with.
pub struct ServerConfig {
    pub port_number: u16,
    pub security: ServerSecurity,
    /// URLs the server listens on; empty for the default URL of the port.
    pub server_urls: Vec<String>,
    /// Client certificates are not checked.
    pub accept_all: bool,
}

/// Builder for the configuration of a server.
pub struct ServerBuilder(ServerConfig);

/// Character of a decimal digit.
pub open spec fn digit_char(d: nat) -> char {
    if d == 0 { '0' }
    else if d == 1 { '1' }
    else if d == 2 { '2' }
    else if d == 3 { '3' }
    else if d == 4 { '4' }
    else if d == 5 { '5' }
    else if d == 6 { '6' }
    else if d == 7 { '7' }
    else if d == 8 { '8' }
    else { '9' }
}

/// Decimal representation of `n`, without leading zeros.
pub open spec fn decimal(n: nat) -> Seq<char>
    decreases n,
{
    if n < 10 {
        seq![digit_char(n)]
    } else {
        decimal(n / 10) + seq![digit_char(n % 10)]
    }
}

/// Value of a decimal digit character.
pub open spec fn char_value(c: char) -> nat {
    if c == '1' { 1 }
    else if c == '2' { 2 }
    else if c == '3' { 3 }
    else if c == '4' { 4 }
    else if c == '5' { 5 }
    else if c == '6' { 6 }
    else if c == '7' { 7 }
    else if c == '8' { 8 }
    else if c == '9' { 9 }
    else { 0 }
}

/// Number that a sequence of decimal digits stands for.
pub open spec fn digits_value(s: Seq<char>) -> nat
    decreases s.len(),
{
    if s.len() == 0 {
        0
    } else {
        digits_value(s.drop_last()) * 10 + char_value(s.last())
    }
}

/// The decimal representation of a number reads back as that number, and consists of digits
/// only.
pub proof fn lemma_decimal_value(n: nat)
    ensures
        digits_value(decimal(n)) == n,
        forall|i: int| 0 <= i < decimal(n).len() ==> '0' <= #[trigger] decimal(n)[i] <= '9',
    decreases n,
{
    let d = decimal(n);
    if n < 10 {
        assert(d.drop_last() =~= Seq::<char>::empty());
        assert(digits_value(Seq::<char>::empty()) == 0);
        assert(char_value(digit_char(n)) == n);
        assert(digits_value(d) == digits_value(d.drop_last()) * 10 + char_value(d.last()));
    } else {
        lemma_decimal_value(n / 10);
        assert(d.drop_last() =~= decimal(n / 10));
        assert(d.last() == digit_char(n % 10));
        assert(char_value(digit_char(n % 10)) == n % 10);
        assert((n / 10) * 10 + n % 10 == n);
        assert(digits_value(d) == digits_value(d.drop_last()) * 10 + char_value(d.last()));
        assert forall|i: int| 0 <= i < d.len() implies '0' <= #[trigger] d[i] <= '9' by {
            if i < d.len() - 1 {
                assert(d[i] == decimal(n / 10)[i]);
            }
        }
    }
}

/// URL of a server that listens on `port_number` on all interfaces.
pub open spec fn port_url(port_number: u16) -> Seq<char> {
    "opc.tcp://:"@ + decimal(port_number as nat)
}

/// Literal for a decimal digit.
fn digit_str(d: u16) -> (r: &'static str)
    requires
        d < 10,
    ensures
        r@ == seq![digit_char(d as nat)],
{
    proof {
        reveal_strlit("0");
        reveal_strlit("1");
        reveal_strlit("2");
        reveal_strlit("3");
        reveal_strlit("4");
        reveal_strlit("5");
        reveal_strlit("6");
        reveal_strlit("7");
        reveal_strlit("8");
        reveal_strlit("9");
    }
    if d == 0 {
        "0"
    } else if d == 1 {
        "1"
    } else if d == 2 {
        "2"
    } else if d == 3 {
        "3"
    } else if d == 4 {
        "4"
    } else if d == 5 {
        "5"
    } else if d == 6 {
        "6"
    } else if d == 7 {
        "7"
    } else if d == 8 {
        "8"
    } else {
        "9"
    }
}

/// Appends the decimal representation of `n`.
fn push_decimal(s: &mut String, n: u16)
    ensures
        final(s)@ == old(s)@ + decimal(n as nat),
    decreases n,
{
    if n >= 10 {
        push_decimal(s, n / 10);
    }
    s.append(digit_str(n % 10));
    proof {
        assert(final(s)@ =~= old(s)@ + decimal(n as nat));
    }
}

/// Checks that a string holds no NUL character.
fn has_no_nul(s: &str) -> (r: bool)
    ensures
        r == !s@.contains('\0'),
{
    let n = s.unicode_len();
    let mut i: usize = 0;
    while i < n
        invariant
            n == s@.len(),
            i <= n,
            forall|k: int| 0 <= k < i ==> s@[k] != '\0',
        decreases n - i,
    {
        if s.get_char(i) == '\0' {
            return false;
        }
        i = i + 1;
    }
    true
}

impl ServerBuilder {
    /// The configuration built so far.
    pub closed spec fn config(self) -> ServerConfig {
        self.0
    }

    fn new(config: ServerConfig) -> (r: ServerBuilder)
        ensures
            r.config() == config,
    {
        ServerBuilder(config)
    }

    /// Creates builder from minimal server config.
    pub fn minimal(port_number: u16, certificate: Option<&[u8]>) -> (r: ServerBuilder)
        ensures
            r.config().port_number == port_number,
            match certificate {
                Some(c) => r.config().security matches ServerSecurity::Minimal {
                    certificate: Some(v),
                } && v@ == c@,
                None => r.config().security matches ServerSecurity::Minimal { certificate: None },
            },
            r.config().server_urls@.len() == 0,
            !r.config().accept_all,
    {
        let certificate = match certificate {
            Some(c) => Some(ua::copy_bytes(c)),
            None => None,
        };
        ServerBuilder::new(
            ServerConfig {
                port_number,
                security: ServerSecurity::Minimal { certificate },
                server_urls: Vec::new(),
                accept_all: false,
            },
        )
    }

    /// Creates builder from default server config with security policies.
    ///
    /// This enables both secure and non-secure (unencrypted) security policies. The certificate
    /// and private key are checked when the server is built from the configuration.
    pub fn default_with_security_policies(
        port_number: u16,
        certificate: &[u8],
        private_key: &[u8],
    ) -> (r: ServerBuilder)
        ensures
            r.config().port_number == port_number,
            r.config().security matches ServerSecurity::WithSecurityPolicies { certificate: c, private_key: k }
                && c@ == certificate@ && k@ == private_key@,
            r.config().server_urls@.len() == 0,
            !r.config().accept_all,
    {
        ServerBuilder::new(
            ServerConfig {
                port_number,
                security: ServerSecurity::WithSecurityPolicies {
                    certificate: ua::copy_bytes(certificate),
                    private_key: ua::copy_bytes(private_key),
                },
                server_urls: Vec::new(),
                accept_all: false,
            },
        )
    }

    /// Creates builder from default server config with secure security policies only.
    ///
    /// The certificate and private key are checked when the server is built from the
    /// configuration.
    pub fn default_with_secure_security_policies(
        port_number: u16,
        certificate: &[u8],
        private_key: &[u8],
    ) -> (r: ServerBuilder)
        ensures
            r.config().port_number == port_number,
            r.config().security matches ServerSecurity::WithSecureSecurityPolicies { certificate: c, private_key: k }
                && c@ == certificate@ && k@ == private_key@,
            r.config().server_urls@.len() == 0,
            !r.config().accept_all,
    {
        ServerBuilder::new(
            ServerConfig {
                port_number,
                security: ServerSecurity::WithSecureSecurityPolicies {
                    certificate: ua::copy_bytes(certificate),
                    private_key: ua::copy_bytes(private_key),
                },
                server_urls: Vec::new(),
                accept_all: false,
            },
        )
    }

    /// Sets server port number.
    ///
    /// This sets the single server URL `opc.tcp://:<port>`, replacing any URLs set before.
    pub fn port(self, port_number: u16) -> (r: ServerBuilder)
        ensures
            r.config().server_urls@.len() == 1,
            r.config().server_urls@[0]@ == port_url(port_number),
            r.config().port_number == self.config().port_number,
            r.config().security == self.config().security,
            r.config().accept_all == self.config().accept_all,
    {
        let mut url = String::from_str("opc.tcp://:");
        push_decimal(&mut url, port_number);
        let mut b = self;
        let mut urls: Vec<String> = Vec::new();
        urls.push(url);
        b.0.server_urls = urls;
        b
    }

    /// Sets server URLs.
    ///
    /// The strings must not contain any NUL characters.
    pub fn server_urls(self, server_urls: &[&str]) -> (r: ServerBuilder)
        requires
            forall|i: int| 0 <= i < server_urls@.len() ==> !(#[trigger] server_urls@[i])@.contains('\0'),
        ensures
            r.config().server_urls@.len() == server_urls@.len(),
            forall|i: int|
                0 <= i < server_urls@.len() ==> (#[trigger] r.config().server_urls@[i])@
                    == server_urls@[i]@,
            r.config().port_number == self.config().port_number,
            r.config().security == self.config().security,
            r.config().accept_all == self.config().accept_all,
    {
        let mut urls: Vec<String> = Vec::new();
        let mut i: usize = 0;
        while i < server_urls.len()
            invariant
                i <= server_urls@.len(),
                urls.len() == i,
                forall|k: int| 0 <= k < i ==> (#[trigger] urls@[k])@ == server_urls@[k]@,
            decreases server_urls@.len() - i,
        {
            urls.push(server_urls[i].to_owned());
            i = i + 1;
        }
        let mut b = self;
        b.0.server_urls = urls;
        b
    }

    /// Sets server URLs, checking them first.
    ///
    /// This returns `None`, and leaves the builder unused, when a URL contains a NUL character.
    pub fn try_server_urls(self, server_urls: &[&str]) -> (r: Option<ServerBuilder>)
        ensures
            r is Some <==> forall|i: int|
                0 <= i < server_urls@.len() ==> !(#[trigger] server_urls@[i])@.contains('\0'),
            r matches Some(b) ==> b.config().server_urls@.len() == server_urls@.len()
                && forall|i: int|
                0 <= i < server_urls@.len() ==> (#[trigger] b.config().server_urls@[i])@
                    == server_urls@[i]@,
    {
        let mut i: usize = 0;
        while i < server_urls.len()
            invariant
                i <= server_urls@.len(),
                forall|k: int| 0 <= k < i ==> !(#[trigger] server_urls@[k])@.contains('\0'),
            decreases server_urls@.len() - i,
        {
            if !has_no_nul(server_urls[i]) {
                return None;
            }
            i = i + 1;
        }
        Some(self.server_urls(server_urls))
    }

    /// Disables client certificate checks.
    pub fn accept_all(self) -> (r: ServerBuilder)
        ensures
            r.config().accept_all,
            r.config().port_number == self.config().port_number,
            r.config().security == self.config().security,
            r.config().server_urls == self.config().server_urls,
    {
        let mut b = self;
        b.0.accept_all = true;
        b
    }

    /// Takes the configuration built.
    pub fn into_config(self) -> (r: ServerConfig)
        ensures
            r == self.config(),
    {
        self.0
    }
}

impl Default for ServerBuilder {
    /// Minimal configuration on the default port, without certificate.
    fn default() -> (r: ServerBuilder)
        ensures
            r.config().port_number == DEFAULT_PORT_NUMBER,
            r.config().security matches ServerSecurity::Minimal { certificate: None },
            r.config().server_urls@.len() == 0,
            !r.config().accept_all,
    {
        ServerBuilder::minimal(DEFAULT_PORT_NUMBER, None)
    }
}

/// Converts the result of browsing a node on the server.
///
/// Unlike a remote server's answer, the result of browsing locally must have its references set.
pub fn to_browse_result(result: ua::BrowseResult) -> (r: BrowseResult)
    ensures
        !result.status_code.spec_is_good() ==> r == Err::<
            (Vec<ReferenceDescription>, Option<ContinuationPoint>),
            Error,
        >(Error::Server(result.status_code)),
        result.status_code.spec_is_good() ==> match result.references {
            None => r == Err::<(Vec<ReferenceDescription>, Option<ContinuationPoint>), Error>(
                Error::Internal("browse should return references"),
            ),
            Some(references) => r == Ok::<_, Error>((references, result.continuation_point)),
        },
{
    Error::verify_good(&result.status_code)?;
    let Some(references) = result.references else {
        return Err(Error::internal("browse should return references"));
    };
    Ok((references, result.continuation_point))
}

/// Namespace index found by a lookup: `None` when the lookup failed or the index does not fit
/// into `u16`.
pub fn namespace_lookup_result(status_code: StatusCode, found_index: usize) -> (r: Option<u16>)
    ensures
        r == (if status_code.spec_is_good() && found_index <= u16::MAX {
            Some(found_index as u16)
        } else {
            None
        }),
{
    if !status_code.is_good() {
        return None;
    }
    if found_index <= u16::MAX as usize {
        Some(found_index as u16)
    } else {
        None
    }
}

} // verus!
