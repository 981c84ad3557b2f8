//! The policy's two http-facing operations: classifying an attempt's outcome
//! and producing a fresh copy of the original request for the next attempt.
//!
//! An `http::Request` cannot be cloned as a unit: its metadata (method, URI,
//! version, headers) is cheap to copy, but the body is a separate resource
//! whose duplication belongs to the body type, so retries demand `B: Clone`.

use vstd::prelude::*;

use crate::policy::AttemptOutcome;
use crate::policy::RetryConfig;

verus! {

#[verifier::external_type_specification]
#[verifier::external_body]
#[verifier::reject_recursive_types(T)]
pub struct ExRequest<T>(http::Request<T>);

#[verifier::external_type_specification]
#[verifier::external_body]
#[verifier::reject_recursive_types(T)]
pub struct ExResponse<T>(http::Response<T>);

/// Relies on http::Response::status and http::StatusCode::as_u16: a
/// status code held by an `http` response always lies in 100..=999, the
/// range that every `StatusCode` constructor enforces.
#[verifier::external_body]
fn response_status<B>(response: &http::Response<B>) -> (r: u16)
    ensures
        100 <= r <= 999,
{
    response.status().as_u16()
}

/// Relies on http::Request::new and the metadata accessors and mutators of
/// http::Request: builds a fresh request whose method, URI, protocol version
/// and headers (order and multiplicity included) are copies of the
/// original's, and whose body is a duplicate of the original's.
#[verifier::external_body]
fn duplicate_request<B: Clone>(req: &http::Request<B>) -> http::Request<B> {
    let mut out = http::Request::new(req.body().clone());
    *out.method_mut() = req.method().clone();
    *out.uri_mut() = req.uri().clone();
    *out.version_mut() = req.version();
    *out.headers_mut() = req.headers().clone();
    out
}

impl RetryConfig {
    /// Decide, from the outcome of the most recent attempt of `_req`,
    /// whether to re-issue it. On a transport error the decision depends on
    /// the budget alone; on a response it depends on the budget and the
    /// response's status code, some code in 100..=999.
    pub fn retry<B, R, E>(
        &self,
        _req: &http::Request<B>,
        result: Result<&http::Response<R>, &E>,
    ) -> (r: Option<RetryConfig>)
        ensures
            result is Err ==> r == self.spec_decide(AttemptOutcome::TransportError),
            result is Ok ==> exists|status: u16|
                100 <= status <= 999 && r == self.spec_decide(AttemptOutcome::Response(status)),
    {
        match result {
            Ok(response) => {
                let status = response_status(response);
                let decision = self.decide(AttemptOutcome::Response(status));
                proof {
                    assert(100 <= status <= 999 && decision == self.spec_decide(
                        AttemptOutcome::Response(status),
                    ));
                }
                decision
            },
            Err(_) => self.decide(AttemptOutcome::TransportError),
        }
    }

    /// Produce the request object for the next attempt: a fresh request
    /// with the same method, URI, protocol version and headers as `req` and
    /// a duplicated body. Under `NoRetry` no attempt will ever be made, so
    /// no request is produced.
    pub fn clone_request<B: Clone>(&self, req: &http::Request<B>) -> (r: Option<
        http::Request<B>,
    >)
        ensures
            r is Some <==> !(self is NoRetry),
    {
        match self {
            RetryConfig::NoRetry => None,
            _ => Some(duplicate_request(req)),
        }
    }
}

} // verus!
