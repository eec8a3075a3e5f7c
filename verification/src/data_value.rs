use vstd::prelude::*;

use core::marker::PhantomData;

use crate::ua::{self, DateTime, StatusCode, Variant};
use crate::DataTypeExt;

verus! {

/// Typed variant of [`ua::DataValue`]: its value is expected to hold a scalar of type `T`.
#[derive(Debug)]
pub struct DataValue<T> {
    data_value: ua::DataValue,
    _kind: PhantomData<T>,
}

impl<T> DataValue<T> {
    /// The untyped data value.
    pub closed spec fn spec_inner(self) -> ua::DataValue {
        self.data_value
    }

    /// Wraps an untyped data value.
    pub fn new(data_value: ua::DataValue) -> (r: DataValue<T>)
        ensures
            r.spec_inner() == data_value,
    {
        DataValue { data_value, _kind: PhantomData }
    }

    /// Unwraps the untyped data value.
    pub fn into_inner(self) -> (r: ua::DataValue)
        ensures
            r == self.spec_inner(),
    {
        self.data_value
    }

    /// Gets value.
    ///
    /// This returns `None` when the value is unset.
    pub fn value(&self) -> (r: Option<&Variant>)
        ensures
            r is Some <==> self.spec_inner().value is Some,
            r matches Some(v) ==> *v == self.spec_inner().value->0,
    {
        self.data_value.value.as_ref()
    }

    /// Extracts value.
    ///
    /// This returns `None` when the value is unset.
    pub fn into_value(self) -> (r: Option<Variant>)
        ensures
            r == self.spec_inner().value,
    {
        self.data_value.value
    }

    /// Gets source timestamp; `None` when unset.
    pub fn source_timestamp(&self) -> (r: Option<&DateTime>)
        ensures
            r is Some <==> self.spec_inner().source_timestamp is Some,
            r matches Some(t) ==> *t == self.spec_inner().source_timestamp->0,
    {
        self.data_value.source_timestamp.as_ref()
    }

    /// Gets server timestamp; `None` when unset.
    pub fn server_timestamp(&self) -> (r: Option<&DateTime>)
        ensures
            r is Some <==> self.spec_inner().server_timestamp is Some,
            r matches Some(t) ==> *t == self.spec_inner().server_timestamp->0,
    {
        self.data_value.server_timestamp.as_ref()
    }

    /// Gets picoseconds of source timestamp; `None` when unset.
    pub fn source_picoseconds(&self) -> (r: Option<u16>)
        ensures
            r == self.spec_inner().source_picoseconds,
    {
        self.data_value.source_picoseconds
    }

    /// Gets picoseconds of server timestamp; `None` when unset.
    pub fn server_picoseconds(&self) -> (r: Option<u16>)
        ensures
            r == self.spec_inner().server_picoseconds,
    {
        self.data_value.server_picoseconds
    }

    /// Gets status; `None` when unset.
    pub fn status(&self) -> (r: Option<StatusCode>)
        ensures
            r == self.spec_inner().status,
    {
        self.data_value.status
    }

    /// Casts to another value type.
    ///
    /// This adjusts the target type, keeping the untyped data value.
    pub fn cast<U>(self) -> (r: DataValue<U>)
        ensures
            r.spec_inner() == self.spec_inner(),
    {
        DataValue::new(self.data_value)
    }
}

impl<T: DataTypeExt> DataValue<T> {
    /// The scalar value of type `T`, when the value is set and holds one.
    pub open spec fn spec_scalar_value(self) -> Option<T> {
        match self.spec_inner().value {
            Some(v) => T::spec_from_variant(v),
            None => None,
        }
    }

    /// Extracts scalar value.
    ///
    /// This returns `None` when the value is unset or not a scalar of the given type.
    pub fn into_scalar_value(self) -> (r: Option<T>)
        ensures
            r == self.spec_scalar_value(),
    {
        match self.data_value.value {
            Some(v) => T::from_variant(v),
            None => None,
        }
    }
}

} // verus!
