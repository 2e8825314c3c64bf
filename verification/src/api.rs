//! The service's error taxonomy: an HTTP status with a short message. Every
//! rejection a handler produces is one of these, and validation failures all
//! carry the same unrevealing wording.

use vstd::prelude::*;

verus! {

/// The wire form of an error response.
pub struct ResponseAPIError {
    /// HTTP status code.
    pub status: u16,
    /// Human-readable message; never distinguishes why validation failed.
    pub message: String,
}

/// An error a route handler returns: a status code and a message.
pub struct APIError {
    /// HTTP status code.
    pub status: u16,
    /// Human-readable message.
    pub message: String,
}

impl APIError {
    /// A 404: the requested thing does not exist (or must appear not to).
    pub fn notfound(message: &str) -> (r: APIError)
        ensures
            r.status == 404,
            r.message@ == message@,
    {
        APIError { status: 404, message: message.to_owned() }
    }

    /// A 403: the caller is authenticated but lacks the capability.
    pub fn forbitten(message: &str) -> (r: APIError)
        ensures
            r.status == 403,
            r.message@ == message@,
    {
        APIError { status: 403, message: message.to_owned() }
    }

    /// A 401: the caller presented no valid credential.
    pub fn unauthorized(message: &str) -> (r: APIError)
        ensures
            r.status == 401,
            r.message@ == message@,
    {
        APIError { status: 401, message: message.to_owned() }
    }

    /// A 400: the request itself is unacceptable.
    pub fn badrequest(message: &str) -> (r: APIError)
        ensures
            r.status == 400,
            r.message@ == message@,
    {
        APIError { status: 400, message: message.to_owned() }
    }

    /// The response body this error is serialized as.
    pub fn to_response(&self) -> (r: ResponseAPIError)
        ensures
            r.status == self.status,
            r.message@ == self.message@,
    {
        ResponseAPIError { status: self.status, message: self.message.clone() }
    }
}

} // verus!
