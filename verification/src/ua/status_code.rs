use vstd::prelude::*;

verus! {

/// Severity of a status code: the two most significant bits.
pub open spec fn severity(code: u32) -> u32 {
    code >> 30u32
}

/// OPC UA status code.
///
/// The two most significant bits give the severity: `00` good, `01` uncertain, `1x` bad.
#[derive(Clone, Copy, PartialEq, Eq, Structural, Debug)]
pub struct StatusCode(pub u32);

impl StatusCode {
    pub open spec fn spec_good() -> StatusCode {
        StatusCode(0x0000_0000u32)
    }

    /// The operation succeeded.
    #[verifier::when_used_as_spec(spec_good)]
    pub fn good() -> (r: StatusCode)
        ensures
            r == Self::spec_good(),
    {
        StatusCode(0x0000_0000u32)
    }

    pub open spec fn spec_uncertain() -> StatusCode {
        StatusCode(0x4000_0000u32)
    }

    /// The operation was uncertain.
    #[verifier::when_used_as_spec(spec_uncertain)]
    pub fn uncertain() -> (r: StatusCode)
        ensures
            r == Self::spec_uncertain(),
    {
        StatusCode(0x4000_0000u32)
    }

    pub open spec fn spec_bad() -> StatusCode {
        StatusCode(0x8000_0000u32)
    }

    /// The operation failed.
    #[verifier::when_used_as_spec(spec_bad)]
    pub fn bad() -> (r: StatusCode)
        ensures
            r == Self::spec_bad(),
    {
        StatusCode(0x8000_0000u32)
    }

    pub open spec fn spec_bad_internal_error() -> StatusCode {
        StatusCode(0x8002_0000u32)
    }

    /// An internal error occurred as a result of a programming or configuration error.
    #[verifier::when_used_as_spec(spec_bad_internal_error)]
    pub fn bad_internal_error() -> (r: StatusCode)
        ensures
            r == Self::spec_bad_internal_error(),
    {
        StatusCode(0x8002_0000u32)
    }

    pub open spec fn spec_bad_not_supported() -> StatusCode {
        StatusCode(0x803D_0000u32)
    }

    /// The requested operation is not supported.
    #[verifier::when_used_as_spec(spec_bad_not_supported)]
    pub fn bad_not_supported() -> (r: StatusCode)
        ensures
            r == Self::spec_bad_not_supported(),
    {
        StatusCode(0x803D_0000u32)
    }

    pub open spec fn spec_bad_not_found() -> StatusCode {
        StatusCode(0x803E_0000u32)
    }

    /// A requested item was not found or a search operation ended without success.
    #[verifier::when_used_as_spec(spec_bad_not_found)]
    pub fn bad_not_found() -> (r: StatusCode)
        ensures
            r == Self::spec_bad_not_found(),
    {
        StatusCode(0x803E_0000u32)
    }

    pub open spec fn spec_bad_duplicate_reference_not_allowed() -> StatusCode {
        StatusCode(0x8066_0000u32)
    }

    /// The reference type between the nodes is already defined.
    #[verifier::when_used_as_spec(spec_bad_duplicate_reference_not_allowed)]
    pub fn bad_duplicate_reference_not_allowed() -> (r: StatusCode)
        ensures
            r == Self::spec_bad_duplicate_reference_not_allowed(),
    {
        StatusCode(0x8066_0000u32)
    }

    pub open spec fn spec_bad_disconnect() -> StatusCode {
        StatusCode(0x80AD_0000u32)
    }

    /// The server has disconnected from the client.
    #[verifier::when_used_as_spec(spec_bad_disconnect)]
    pub fn bad_disconnect() -> (r: StatusCode)
        ensures
            r == Self::spec_bad_disconnect(),
    {
        StatusCode(0x80AD_0000u32)
    }

    pub open spec fn spec_bad_connection_closed() -> StatusCode {
        StatusCode(0x80AE_0000u32)
    }

    /// The network connection has been closed.
    #[verifier::when_used_as_spec(spec_bad_connection_closed)]
    pub fn bad_connection_closed() -> (r: StatusCode)
        ensures
            r == Self::spec_bad_connection_closed(),
    {
        StatusCode(0x80AE_0000u32)
    }

    pub open spec fn spec_is_good(self) -> bool {
        severity(self.0) == 0
    }

    pub open spec fn spec_is_uncertain(self) -> bool {
        severity(self.0) == 1
    }

    pub open spec fn spec_is_bad(self) -> bool {
        severity(self.0) >= 2
    }

    /// Creates status code from its numeric value.
    pub fn new(code: u32) -> (r: Self)
        ensures
            r.0 == code,
    {
        StatusCode(code)
    }

    /// Gets the numeric value.
    pub fn code(&self) -> (r: u32)
        ensures
            r == self.0,
    {
        self.0
    }

    /// Checks whether the severity is good.
    pub fn is_good(&self) -> (r: bool)
        ensures
            r == self.spec_is_good(),
    {
        (self.0 >> 30u32) == 0
    }

    /// Checks whether the severity is uncertain.
    pub fn is_uncertain(&self) -> (r: bool)
        ensures
            r == self.spec_is_uncertain(),
    {
        (self.0 >> 30u32) == 1
    }

    /// Checks whether the severity is bad.
    pub fn is_bad(&self) -> (r: bool)
        ensures
            r == self.spec_is_bad(),
    {
        (self.0 >> 30u32) >= 2
    }
}

/// Every status code has exactly one severity: good, uncertain or bad.
pub proof fn lemma_severity_exclusive(s: StatusCode)
    ensures
        s.spec_is_good() || s.spec_is_uncertain() || s.spec_is_bad(),
        !(s.spec_is_good() && s.spec_is_uncertain()),
        !(s.spec_is_good() && s.spec_is_bad()),
        !(s.spec_is_uncertain() && s.spec_is_bad()),
        severity(s.0) <= 3,
{
    let c = s.0;
    assert((c >> 30u32) <= 3) by (bit_vector);
}

} // verus!
