use vstd::prelude::*;

use crate::ua::{NodeId, StatusCode, Variant};

verus! {

/// Error of a method call: the status code reported to the client.
#[derive(Debug)]
pub enum MethodCallbackError {
    StatusCode(StatusCode),
    NotSupported,
}

/// Result from method callback operations.
pub type MethodCallbackResult = Result<(), MethodCallbackError>;

impl MethodCallbackError {
    /// The status code reported for the error.
    pub open spec fn spec_status_code(self) -> StatusCode {
        match self {
            MethodCallbackError::StatusCode(status_code) => status_code,
            MethodCallbackError::NotSupported => StatusCode::spec_bad_not_supported(),
        }
    }

    /// Creates error from status code; a good status code, which would be misleading, becomes
    /// `BADINTERNALERROR`.
    pub fn from_status_code(value: StatusCode) -> (r: MethodCallbackError)
        ensures
            r == MethodCallbackError::StatusCode(
                if value.spec_is_good() {
                    StatusCode::spec_bad_internal_error()
                } else {
                    value
                },
            ),
    {
        MethodCallbackError::StatusCode(
            if value.is_good() {
                StatusCode::bad_internal_error()
            } else {
                value
            },
        )
    }

    /// Gets the status code reported for the error.
    pub fn into_status_code(self) -> (r: StatusCode)
        ensures
            r == self.spec_status_code(),
    {
        match self {
            MethodCallbackError::StatusCode(status_code) => status_code,
            MethodCallbackError::NotSupported => StatusCode::bad_not_supported(),
        }
    }
}

/// A method callback error never reports success: made from a status code it reports that code
/// when it is not good, and `BADINTERNALERROR` in place of a good one; "not supported" reports
/// `BADNOTSUPPORTED`.
pub proof fn lemma_method_callback_status(s: StatusCode)
    ensures
        !MethodCallbackError::StatusCode(
            if s.spec_is_good() {
                StatusCode::spec_bad_internal_error()
            } else {
                s
            },
        ).spec_status_code().spec_is_good(),
        !MethodCallbackError::NotSupported.spec_status_code().spec_is_good(),
{
    let b = StatusCode::spec_bad_internal_error().0;
    assert((b >> 30u32) == 2) by (bit_vector)
        requires
            b == 0x8002_0000u32,
    ;
    let c = StatusCode::spec_bad_not_supported().0;
    assert((c >> 30u32) == 2) by (bit_vector)
        requires
            c == 0x803D_0000u32,
    ;
}

/// Sets the output arguments of a method call.
///
/// The number of values must match the number of output arguments; otherwise this fails and
/// leaves them unchanged.
pub fn fill_output_arguments(output_arguments: &mut Vec<Variant>, values: Vec<Variant>) -> (r:
    Result<(), ()>)
    ensures
        r is Ok <==> values.len() == old(output_arguments).len(),
        r is Ok ==> final(output_arguments)@ == values@,
        r is Err ==> final(output_arguments)@ == old(output_arguments)@,
{
    if values.len() != output_arguments.len() {
        return Err(());
    }
    *output_arguments = values;
    Ok(())
}

impl From<StatusCode> for MethodCallbackError {
    /// Creates error from status code; a good status code, which would be misleading, becomes
    /// `BADINTERNALERROR`.
    fn from(value: StatusCode) -> (r: MethodCallbackError) {
        MethodCallbackError::from_status_code(value)
    }
}

impl vstd::std_specs::convert::FromSpecImpl<StatusCode> for MethodCallbackError {
    open spec fn obeys_from_spec() -> bool {
        true
    }

    open spec fn from_spec(v: StatusCode) -> MethodCallbackError {
        MethodCallbackError::StatusCode(
            if v.spec_is_good() {
                StatusCode::spec_bad_internal_error()
            } else {
                v
            },
        )
    }
}

/// Context of a method call: the object called on, the input arguments received from the
/// client, and the output arguments reported back.
#[derive(Debug)]
pub struct MethodCallbackContext {
    object_id: NodeId,
    input_arguments: Vec<Variant>,
    output_arguments: Vec<Variant>,
}

impl MethodCallbackContext {
    /// Object node ID of the call.
    pub closed spec fn spec_object_id(&self) -> NodeId {
        self.object_id
    }

    /// Input arguments of the call.
    pub closed spec fn spec_input_arguments(&self) -> Seq<Variant> {
        self.input_arguments@
    }

    /// Output arguments reported back; their number is fixed by the method.
    pub closed spec fn spec_output_arguments(&self) -> Seq<Variant> {
        self.output_arguments@
    }

    /// Creates the context of a call, with the output arguments the server prepared.
    pub fn new(object_id: NodeId, input_arguments: Vec<Variant>, output_arguments: Vec<Variant>) -> (r:
        Self)
        ensures
            r.spec_object_id() == object_id,
            r.spec_input_arguments() == input_arguments@,
            r.spec_output_arguments() == output_arguments@,
    {
        MethodCallbackContext { object_id, input_arguments, output_arguments }
    }

    /// Gets the object node ID used by the client.
    pub fn object_id(&self) -> (r: &NodeId)
        ensures
            *r == self.spec_object_id(),
    {
        &self.object_id
    }

    /// Gets the input arguments received from the client.
    pub fn input_arguments(&self) -> (r: &[Variant])
        ensures
            r@ == self.spec_input_arguments(),
    {
        self.input_arguments.as_slice()
    }

    /// Sets the output arguments reported back to the client.
    ///
    /// The number of values must match the number of output arguments of the method; otherwise
    /// this fails and leaves them unchanged.
    pub fn set_output_arguments(&mut self, values: Vec<Variant>) -> (r: Result<(), ()>)
        ensures
            r is Ok <==> values.len() == old(self).spec_output_arguments().len(),
            r is Ok ==> final(self).spec_output_arguments() == values@,
            r is Err ==> final(self).spec_output_arguments() == old(self).spec_output_arguments(),
            final(self).spec_object_id() == old(self).spec_object_id(),
            final(self).spec_input_arguments() == old(self).spec_input_arguments(),
    {
        fill_output_arguments(&mut self.output_arguments, values)
    }

    /// Takes the output arguments reported back to the client.
    pub fn into_output_arguments(self) -> (r: Vec<Variant>)
        ensures
            r@ == self.spec_output_arguments(),
    {
        self.output_arguments
    }
}

/// Implementation of a method: called when a client calls the method.
pub trait MethodCallback {
    /// Calls the method: the input arguments are in `context`, and the output arguments go
    /// there.
    ///
    /// An error's status code is forwarded to the client.
    fn call(&mut self, context: &mut MethodCallbackContext) -> MethodCallbackResult;
}

/// Status code reported to the client for a method call: `GOOD` when it succeeded, the error's
/// status code when it failed, and `BADINTERNALERROR` when it did not return (`None`: the
/// implementation panicked).
pub open spec fn call_status(outcome: Option<MethodCallbackResult>) -> StatusCode {
    match outcome {
        Some(Ok(())) => StatusCode::spec_good(),
        Some(Err(e)) => e.spec_status_code(),
        None => StatusCode::spec_bad_internal_error(),
    }
}

/// Computes the status code reported to the client for a method call.
pub fn method_callback_status_code(outcome: Option<MethodCallbackResult>) -> (r: StatusCode)
    ensures
        r == call_status(outcome),
{
    match outcome {
        Some(Ok(())) => StatusCode::good(),
        Some(Err(e)) => e.into_status_code(),
        None => StatusCode::bad_internal_error(),
    }
}

/// The client is told `GOOD` exactly when the method returned success: a panic is reported as
/// `BADINTERNALERROR`, "not supported" as `BADNOTSUPPORTED`, and an error made from a status code
/// by that code, which is not good for the errors that the library's constructors make.
pub proof fn lemma_call_status_good(outcome: Option<MethodCallbackResult>)
    requires
        outcome matches Some(Err(MethodCallbackError::StatusCode(s))) ==> !s.spec_is_good(),
    ensures
        call_status(outcome).spec_is_good() <==> outcome matches Some(Ok(_)),
{
    let b = StatusCode::spec_bad_internal_error().0;
    assert((b >> 30u32) == 2) by (bit_vector)
        requires
            b == 0x8002_0000u32,
    ;
    let c = StatusCode::spec_bad_not_supported().0;
    assert((c >> 30u32) == 2) by (bit_vector)
        requires
            c == 0x803D_0000u32,
    ;
    let g = StatusCode::spec_good().0;
    assert((g >> 30u32) == 0) by (bit_vector)
        requires
            g == 0u32,
    ;
}

} // verus!
