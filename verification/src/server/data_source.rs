use vstd::prelude::*;

use crate::ua::{DataValue, StatusCode, Variant};
use crate::Error;

verus! {

/// Error of a data source operation: the status code reported to the client.
#[derive(Debug)]
pub enum DataSourceError {
    StatusCode(StatusCode),
    Error(Error),
}

/// Result from data source operations.
pub type DataSourceResult = Result<(), DataSourceError>;

impl DataSourceError {
    /// The status code reported for the error.
    pub open spec fn spec_status_code(self) -> StatusCode {
        match self {
            DataSourceError::StatusCode(status_code) => status_code,
            DataSourceError::Error(err) => err.spec_status_code(),
        }
    }

    /// Creates error from status code; a good status code, which would be misleading, becomes
    /// `BADINTERNALERROR`.
    pub fn from_status_code(status_code: StatusCode) -> (r: DataSourceError)
        ensures
            r == DataSourceError::StatusCode(
                if status_code.spec_is_good() {
                    StatusCode::spec_bad_internal_error()
                } else {
                    status_code
                },
            ),
    {
        DataSourceError::StatusCode(
            if status_code.is_good() {
                StatusCode::bad_internal_error()
            } else {
                status_code
            },
        )
    }

    /// Creates error from a library error.
    pub fn from_error(err: Error) -> (r: DataSourceError)
        ensures
            r == DataSourceError::Error(err),
    {
        DataSourceError::Error(err)
    }

    /// Gets the status code reported for the error.
    pub fn into_status_code(self) -> (r: StatusCode)
        ensures
            r == self.spec_status_code(),
    {
        match self {
            DataSourceError::StatusCode(status_code) => status_code,
            DataSourceError::Error(err) => err.status_code(),
        }
    }
}

/// A data source error made from a status code reports that status code when it is not good, and
/// `BADINTERNALERROR` in place of a good one: it never reports success.
pub proof fn lemma_data_source_status(s: StatusCode)
    ensures
        DataSourceError::StatusCode(
            if s.spec_is_good() {
                StatusCode::spec_bad_internal_error()
            } else {
                s
            },
        ).spec_status_code() == (if s.spec_is_good() {
            StatusCode::spec_bad_internal_error()
        } else {
            s
        }),
        !DataSourceError::StatusCode(
            if s.spec_is_good() {
                StatusCode::spec_bad_internal_error()
            } else {
                s
            },
        ).spec_status_code().spec_is_good(),
{
    let b = StatusCode::spec_bad_internal_error().0;
    assert((b >> 30u32) == 2) by (bit_vector)
        requires
            b == 0x8002_0000u32,
    ;
}

/// Context when a [`DataSource`] is read from: holds the value reported back to the client.
#[derive(Debug)]
pub struct DataSourceReadContext {
    value: DataValue,
}

impl DataSourceReadContext {
    /// The value reported back to the client.
    pub closed spec fn spec_value(&self) -> DataValue {
        self.value
    }

    /// Creates the context of a read, starting from the value the server prepared.
    pub fn new(value: DataValue) -> (r: Self)
        ensures
            r.spec_value() == value,
    {
        DataSourceReadContext { value }
    }

    /// Gets the value reported back to the client.
    pub fn value(&self) -> (r: &DataValue)
        ensures
            *r == self.spec_value(),
    {
        &self.value
    }

    /// Sets the value reported back to the client.
    pub fn set_value(&mut self, value: DataValue)
        ensures
            final(self).spec_value() == value,
    {
        self.value = value;
    }

    /// Sets the value reported back to the client to a value with only `variant` set.
    pub fn set_variant(&mut self, variant: Variant)
        ensures
            final(self).spec_value() == DataValue::new_spec(variant),
    {
        self.value = DataValue::new(variant);
    }

    /// Takes the value reported back to the client.
    pub fn into_value(self) -> (r: DataValue)
        ensures
            r == self.spec_value(),
    {
        self.value
    }
}

/// Context when a [`DataSource`] is written to: holds the value received from the client.
#[derive(Debug)]
pub struct DataSourceWriteContext {
    value: DataValue,
}

impl DataSourceWriteContext {
    /// The value received from the client.
    pub closed spec fn spec_value(&self) -> DataValue {
        self.value
    }

    /// Creates the context of a write of `value`.
    pub fn new(value: DataValue) -> (r: Self)
        ensures
            r.spec_value() == value,
    {
        DataSourceWriteContext { value }
    }

    /// Gets the value received from the client.
    pub fn value(&self) -> (r: &DataValue)
        ensures
            *r == self.spec_value(),
    {
        &self.value
    }
}

/// Data source of a variable node: reads and writes are handed to its implementation.
pub trait DataSource {
    /// Reads from the variable: the value for the client goes into `context`.
    ///
    /// An error's status code is forwarded to the client.
    fn read(&mut self, context: &mut DataSourceReadContext) -> DataSourceResult;

    /// Writes to the variable: the value from the client is in `context`.
    ///
    /// An error's status code is forwarded to the client. By default, writing is not supported.
    fn write(&mut self, context: &mut DataSourceWriteContext) -> (r: DataSourceResult)
        default_ensures
            r == Err::<(), DataSourceError>(
                DataSourceError::StatusCode(StatusCode::spec_bad_not_supported()),
            ),
    {
        proof {
            let c = StatusCode::spec_bad_not_supported().0;
            assert((c >> 30u32) == 2) by (bit_vector)
                requires
                    c == 0x803D_0000u32,
            ;
        }
        Err(DataSourceError::from_status_code(StatusCode::bad_not_supported()))
    }
}

/// Status code reported to the client for a read or write of a data source: `GOOD` when it
/// succeeded, the error's status code when it failed, and `BADINTERNALERROR` when it did not
/// return (`None`: the implementation panicked).
pub open spec fn callback_status(outcome: Option<DataSourceResult>) -> StatusCode {
    match outcome {
        Some(Ok(())) => StatusCode::spec_good(),
        Some(Err(e)) => e.spec_status_code(),
        None => StatusCode::spec_bad_internal_error(),
    }
}

/// Computes the status code reported to the client for a read or write of a data source.
pub fn data_source_status_code(outcome: Option<DataSourceResult>) -> (r: StatusCode)
    ensures
        r == callback_status(outcome),
{
    match outcome {
        Some(Ok(())) => StatusCode::good(),
        Some(Err(e)) => e.into_status_code(),
        None => StatusCode::bad_internal_error(),
    }
}

/// The client is told `GOOD` exactly when the data source's callback returned success: a panic
/// is reported as `BADINTERNALERROR`, and an error by its status code, which is not good for the
/// errors that the library's constructors make.
pub proof fn lemma_callback_status_good(outcome: Option<DataSourceResult>)
    requires
        outcome matches Some(Err(e)) ==> !e.spec_status_code().spec_is_good(),
    ensures
        callback_status(outcome).spec_is_good() <==> outcome matches Some(Ok(_)),
{
    let b = StatusCode::spec_bad_internal_error().0;
    assert((b >> 30u32) == 2) by (bit_vector)
        requires
            b == 0x8002_0000u32,
    ;
    let g = StatusCode::spec_good().0;
    assert((g >> 30u32) == 0) by (bit_vector)
        requires
            g == 0u32,
    ;
    match outcome {
        Some(Ok(())) => {
            assert(callback_status(outcome) == StatusCode::spec_good());
            assert(StatusCode::spec_good().spec_is_good());
        },
        Some(Err(e)) => {},
        None => {
            assert(!StatusCode::spec_bad_internal_error().spec_is_good());
        },
    }
}

} // verus!
