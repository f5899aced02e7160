//! Outcome classifier: the closed failure taxonomy raised by the pipeline
//! layers, and the total, pure mapping from each failure kind to the
//! transport-level status code and response body seen by the caller.

use vstd::prelude::*;
use vstd::string::StringExecFns;

verus! {

/// The closed set of failures a pipeline layer can raise.
///
/// Each layer raises only the kinds it owns: the identity gate raises
/// `Unauthorized`, the admission controller `Overloaded`, the deadline
/// enforcer `TimedOut`; the handler may raise `Validation` or `Internal`.
#[derive(Debug, Clone)]
pub enum FailureKind {
    Unauthorized,
    Overloaded,
    TimedOut,
    Validation(String),
    Internal(String),
}

/// The status code a failure kind is classified as, identical wherever in the
/// pipeline the failure originated.
pub open spec fn spec_status_code(kind: FailureKind) -> u16 {
    match kind {
        FailureKind::Unauthorized => 401,
        FailureKind::Overloaded => 429,
        FailureKind::TimedOut => 504,
        FailureKind::Validation(_) => 400,
        FailureKind::Internal(_) => 500,
    }
}

/// The response body a failure kind is classified as. A validation failure
/// surfaces its detail; an internal failure is reported only as a fixed
/// generic message, so internals never leak to the caller.
pub open spec fn spec_response_body(kind: FailureKind) -> Seq<char> {
    match kind {
        FailureKind::Unauthorized => ""@,
        FailureKind::Overloaded => "too many requests"@,
        FailureKind::TimedOut => "timeout"@,
        FailureKind::Validation(detail) => detail@,
        FailureKind::Internal(_) => "error"@,
    }
}

/// Classifies a failure into the status code and body returned to the caller.
pub fn classify(kind: &FailureKind) -> (r: (u16, String))
    ensures
        r.0 == spec_status_code(*kind),
        r.1@ == spec_response_body(*kind),
{
    proof {
        reveal_strlit("");
    }
    match kind {
        FailureKind::Unauthorized => (401, String::new()),
        FailureKind::Overloaded => (429, String::from_str("too many requests")),
        FailureKind::TimedOut => (504, String::from_str("timeout")),
        FailureKind::Validation(detail) => (400, detail.clone()),
        FailureKind::Internal(_) => (500, String::from_str("error")),
    }
}

/// Classification is a pure function of the failure kind alone: equal kinds
/// are always classified equally, no matter how often or where they are
/// classified.
pub proof fn lemma_classification_pure(k1: FailureKind, k2: FailureKind)
    requires
        k1 == k2,
    ensures
        spec_status_code(k1) == spec_status_code(k2),
        spec_response_body(k1) == spec_response_body(k2),
{
}

/// Classification is total: every failure kind maps to an error status, and
/// only an internal failure maps to the server-error class.
pub proof fn lemma_classification_total(k: FailureKind)
    ensures
        400 <= spec_status_code(k) <= 504,
        spec_status_code(k) >= 500 <==> (k is TimedOut || k is Internal),
{
}

} // verus!
