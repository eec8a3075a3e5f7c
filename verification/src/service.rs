use vstd::prelude::*;

use crate::ua::{
    self, BrowseNextRequest, BrowseRequest, BrowseResponse, CallRequest, CallResponse,
    CreateMonitoredItemsRequest, CreateMonitoredItemsResponse, CreateSubscriptionRequest,
    CreateSubscriptionResponse, DeleteMonitoredItemsRequest, DeleteMonitoredItemsResponse,
    DeleteSubscriptionsRequest, DeleteSubscriptionsResponse, ReadRequest, ReadResponse,
    RequestHeader, ResponseHeader, StatusCode, WriteRequest, WriteResponse,
};
use crate::{Error, Result};

verus! {

/// A generic service response.
pub trait ServiceResponse: Sized {
    /// The response header.
    spec fn spec_response_header(&self) -> ResponseHeader;

    /// Returns the response header.
    fn response_header(&self) -> (r: &ResponseHeader)
        ensures
            *r == self.spec_response_header(),
    ;
}

/// A generic service request.
pub trait ServiceRequest: Sized {
    /// Type of the response.
    type Response: ServiceResponse;

    /// The request header.
    spec fn spec_request_header(&self) -> RequestHeader;

    /// Returns the request header.
    fn request_header(&self) -> (r: &RequestHeader)
        ensures
            *r == self.spec_request_header(),
    ;
}

/// Passes on a response whose service result is good, and the error for its status otherwise.
pub fn service_response_result<R: ServiceResponse>(response: R) -> (r: Result<R>)
    ensures
        response.spec_response_header().service_result.spec_is_good() ==> r == Ok::<R, Error>(
            response,
        ),
        !response.spec_response_header().service_result.spec_is_good() ==> r == Err::<R, Error>(
            Error::Server(response.spec_response_header().service_result),
        ),
{
    let service_result: StatusCode = response.response_header().service_result;
    if service_result.is_good() {
        Ok(response)
    } else {
        Err(Error::new(service_result))
    }
}

/// Result of a call that reports a status code and, when that is good, an array: the array, or
/// the internal error `missing` when the call left it unset.
pub fn array_result<T>(status_code: StatusCode, array: Option<Vec<T>>, missing: &'static str) -> (r:
    Result<Vec<T>>)
    ensures
        !status_code.spec_is_good() ==> r == Err::<Vec<T>, Error>(Error::Server(status_code)),
        status_code.spec_is_good() ==> match array {
            Some(a) => r == Ok::<Vec<T>, Error>(a),
            None => r == Err::<Vec<T>, Error>(Error::Internal(missing)),
        },
{
    Error::verify_good(&status_code)?;
    match array {
        Some(a) => Ok(a),
        None => Err(Error::internal(missing)),
    }
}

impl ServiceResponse for ReadResponse {
    open spec fn spec_response_header(&self) -> ResponseHeader {
        self.response_header
    }

    fn response_header(&self) -> (r: &ResponseHeader) {
        &self.response_header
    }
}

impl ServiceResponse for WriteResponse {
    open spec fn spec_response_header(&self) -> ResponseHeader {
        self.response_header
    }

    fn response_header(&self) -> (r: &ResponseHeader) {
        &self.response_header
    }
}

impl ServiceResponse for CallResponse {
    open spec fn spec_response_header(&self) -> ResponseHeader {
        self.response_header
    }

    fn response_header(&self) -> (r: &ResponseHeader) {
        &self.response_header
    }
}

impl ServiceResponse for BrowseResponse {
    open spec fn spec_response_header(&self) -> ResponseHeader {
        self.response_header
    }

    fn response_header(&self) -> (r: &ResponseHeader) {
        &self.response_header
    }
}

impl ServiceResponse for CreateSubscriptionResponse {
    open spec fn spec_response_header(&self) -> ResponseHeader {
        self.response_header
    }

    fn response_header(&self) -> (r: &ResponseHeader) {
        &self.response_header
    }
}

impl ServiceResponse for DeleteSubscriptionsResponse {
    open spec fn spec_response_header(&self) -> ResponseHeader {
        self.response_header
    }

    fn response_header(&self) -> (r: &ResponseHeader) {
        &self.response_header
    }
}

impl ServiceResponse for CreateMonitoredItemsResponse {
    open spec fn spec_response_header(&self) -> ResponseHeader {
        self.response_header
    }

    fn response_header(&self) -> (r: &ResponseHeader) {
        &self.response_header
    }
}

impl ServiceResponse for DeleteMonitoredItemsResponse {
    open spec fn spec_response_header(&self) -> ResponseHeader {
        self.response_header
    }

    fn response_header(&self) -> (r: &ResponseHeader) {
        &self.response_header
    }
}

impl ServiceRequest for ReadRequest {
    type Response = ReadResponse;

    open spec fn spec_request_header(&self) -> RequestHeader {
        self.request_header
    }

    fn request_header(&self) -> (r: &RequestHeader) {
        &self.request_header
    }
}

impl ServiceRequest for WriteRequest {
    type Response = WriteResponse;

    open spec fn spec_request_header(&self) -> RequestHeader {
        self.request_header
    }

    fn request_header(&self) -> (r: &RequestHeader) {
        &self.request_header
    }
}

impl ServiceRequest for CallRequest {
    type Response = CallResponse;

    open spec fn spec_request_header(&self) -> RequestHeader {
        self.request_header
    }

    fn request_header(&self) -> (r: &RequestHeader) {
        &self.request_header
    }
}

impl ServiceRequest for BrowseRequest {
    type Response = BrowseResponse;

    open spec fn spec_request_header(&self) -> RequestHeader {
        self.request_header
    }

    fn request_header(&self) -> (r: &RequestHeader) {
        &self.request_header
    }
}

impl ServiceRequest for BrowseNextRequest {
    type Response = BrowseResponse;

    open spec fn spec_request_header(&self) -> RequestHeader {
        self.request_header
    }

    fn request_header(&self) -> (r: &RequestHeader) {
        &self.request_header
    }
}

impl ServiceRequest for CreateSubscriptionRequest {
    type Response = CreateSubscriptionResponse;

    open spec fn spec_request_header(&self) -> RequestHeader {
        self.request_header
    }

    fn request_header(&self) -> (r: &RequestHeader) {
        &self.request_header
    }
}

impl ServiceRequest for DeleteSubscriptionsRequest {
    type Response = DeleteSubscriptionsResponse;

    open spec fn spec_request_header(&self) -> RequestHeader {
        self.request_header
    }

    fn request_header(&self) -> (r: &RequestHeader) {
        &self.request_header
    }
}

impl ServiceRequest for CreateMonitoredItemsRequest {
    type Response = CreateMonitoredItemsResponse;

    open spec fn spec_request_header(&self) -> RequestHeader {
        self.request_header
    }

    fn request_header(&self) -> (r: &RequestHeader) {
        &self.request_header
    }
}

impl ServiceRequest for DeleteMonitoredItemsRequest {
    type Response = DeleteMonitoredItemsResponse;

    open spec fn spec_request_header(&self) -> RequestHeader {
        self.request_header
    }

    fn request_header(&self) -> (r: &RequestHeader) {
        &self.request_header
    }
}

} // verus!
