//! The outcome of a request, as the broker reports it to a remote caller.

use vstd::prelude::*;

verus! {

/// What a request ended in. Each value stands for one HTTP status.
#[derive(Clone, Copy, Debug, PartialEq, Eq, Structural)]
pub enum Status {
    /// 200: the request succeeded and has a body.
    Success,
    /// 202: the request was authorized and taken on.
    Accepted,
    /// 401: the presented token does not match, or none was presented.
    Unauthorized,
    /// 403: a secret was presented and is wrong.
    Forbidden,
    /// 404: no endpoint of that id is registered.
    NotFound,
    /// 409: an endpoint of that id is registered already.
    Conflict,
    /// 500: the store or a guard failed.
    InternalServerError,
}

impl Status {
    /// The HTTP status code that the value stands for.
    pub open spec fn spec_code(self) -> u16 {
        match self {
            Status::Success => 200,
            Status::Accepted => 202,
            Status::Unauthorized => 401,
            Status::Forbidden => 403,
            Status::NotFound => 404,
            Status::Conflict => 409,
            Status::InternalServerError => 500,
        }
    }

    /// The HTTP status code that the value stands for.
    #[verifier::when_used_as_spec(spec_code)]
    pub fn code(self) -> (code: u16)
        ensures
            code == self.spec_code(),
    {
        match self {
            Status::Success => 200,
            Status::Accepted => 202,
            Status::Unauthorized => 401,
            Status::Forbidden => 403,
            Status::NotFound => 404,
            Status::Conflict => 409,
            Status::InternalServerError => 500,
        }
    }

    /// Whether the code lies in the 2xx range.
    pub fn is_success(self) -> (ok: bool)
        ensures
            ok == (200 <= self.spec_code() < 300),
    {
        match self {
            Status::Success | Status::Accepted => true,
            _ => false,
        }
    }
}

} // verus!
