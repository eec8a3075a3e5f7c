use vstd::prelude::*;

use crate::ua::{copy_bytes, ByteString};
use crate::{Error, Result};

verus! {

/// Certificate in DER or PEM format.
#[derive(Debug)]
pub struct Certificate(ByteString);

impl Clone for Certificate {
    fn clone(&self) -> (r: Certificate)
        ensures
            r.spec_bytes() == self.spec_bytes(),
    {
        Certificate(ByteString(Some(copy_bytes(self.as_bytes()))))
    }
}

impl Certificate {
    #[verifier::type_invariant]
    closed spec fn wf(self) -> bool {
        self.0.0 is Some
    }

    /// The certificate data.
    pub closed spec fn spec_bytes(self) -> Seq<u8> {
        self.0.0->0@
    }

    /// Wraps a byte string; `None` for the invalid byte string.
    pub fn from_byte_string(byte_string: ByteString) -> (r: Option<Certificate>)
        ensures
            r is Some <==> byte_string.0 is Some,
            r matches Some(c) ==> c.spec_bytes() == byte_string.0->0@,
    {
        if byte_string.is_invalid() {
            None
        } else {
            Some(Certificate(byte_string))
        }
    }

    /// Wraps certificate data.
    ///
    /// This does not validate the data. When passing the instance to another method, that method
    /// may still fail if the certificate is not valid.
    pub fn from_bytes(bytes: &[u8]) -> (r: Certificate)
        ensures
            r.spec_bytes() == bytes@,
    {
        Certificate(ByteString::new(bytes))
    }

    /// Gets certificate data.
    pub fn as_bytes(&self) -> (r: &[u8])
        ensures
            r@ == self.spec_bytes(),
    {
        proof {
            use_type_invariant(self);
        }
        match &self.0.0 {
            Some(v) => v.as_slice(),
            None => {
                assert(false);
                &[]
            },
        }
    }

    /// Gets certificate data as byte string.
    pub fn as_byte_string(&self) -> (r: &ByteString)
        ensures
            r.0 matches Some(v) && v@ == self.spec_bytes(),
    {
        proof {
            use_type_invariant(self);
        }
        &self.0
    }
}

/// Private key in DER or PEM format.
pub struct PrivateKey(ByteString);

impl Clone for PrivateKey {
    fn clone(&self) -> (r: PrivateKey)
        ensures
            r.spec_bytes() == self.spec_bytes(),
    {
        PrivateKey(ByteString(Some(copy_bytes(self.as_bytes()))))
    }
}

impl PrivateKey {
    #[verifier::type_invariant]
    closed spec fn wf(self) -> bool {
        self.0.0 is Some
    }

    /// The private key data.
    pub closed spec fn spec_bytes(self) -> Seq<u8> {
        self.0.0->0@
    }

    /// Wraps a byte string; `None` for the invalid byte string.
    pub fn from_byte_string(byte_string: ByteString) -> (r: Option<PrivateKey>)
        ensures
            r is Some <==> byte_string.0 is Some,
            r matches Some(k) ==> k.spec_bytes() == byte_string.0->0@,
    {
        if byte_string.is_invalid() {
            None
        } else {
            Some(PrivateKey(byte_string))
        }
    }

    /// Wraps private key data.
    ///
    /// This does not validate the data. When passing the instance to another method, that method
    /// may still fail if the private key is not valid.
    pub fn from_bytes(bytes: &[u8]) -> (r: PrivateKey)
        ensures
            r.spec_bytes() == bytes@,
    {
        PrivateKey(ByteString::new(bytes))
    }

    /// Gets private key data.
    pub fn as_bytes(&self) -> (r: &[u8])
        ensures
            r@ == self.spec_bytes(),
    {
        proof {
            use_type_invariant(self);
        }
        match &self.0.0 {
            Some(v) => v.as_slice(),
            None => {
                assert(false);
                &[]
            },
        }
    }

    /// Gets private key data as byte string.
    pub fn as_byte_string(&self) -> (r: &ByteString)
        ensures
            r.0 matches Some(v) && v@ == self.spec_bytes(),
    {
        proof {
            use_type_invariant(self);
        }
        &self.0
    }
}

/// Password for decrypting a private key.
#[derive(Clone)]
pub struct Password(String);

impl Password {
    /// Wraps password.
    pub fn new(password: String) -> (r: Password)
        ensures
            r.spec_str() == password@,
    {
        Password(password)
    }

    /// The password's characters.
    pub closed spec fn spec_str(self) -> Seq<char> {
        self.0@
    }

    /// Gets the password.
    pub fn as_str(&self) -> (r: &str)
        ensures
            r@ == self.spec_str(),
    {
        self.0.as_str()
    }
}

/// Outcome of fetching a server's certificate: the certificate that the verification callback
/// received while connecting, or an error when it received none (or only an invalid one).
pub fn fetch_certificate_result(received: Option<Certificate>) -> (r: Result<Certificate>)
    ensures
        match received {
            Some(c) => r == Ok::<Certificate, Error>(c),
            None => r == Err::<Certificate, Error>(Error::Internal("did not receive certificate")),
        },
{
    match received {
        Some(c) => Ok(c),
        None => Err(Error::internal("did not receive certificate")),
    }
}

} // verus!
