//! The composed request pipeline: identity gate, then admission control, then
//! deadline-enforced handler execution, with the outcome classified and
//! recorded on the way out. The layer order is fixed and identical for every
//! request, and a failure at any layer still yields exactly one recorded
//! outcome and exactly one permit release if a permit was held.

use crate::admission::PermitPool;
use crate::deadline::enforce_deadline;
use crate::failure::{classify, spec_status_code, FailureKind};
use crate::identity::{spec_lookup, spec_unauthorized_sentinel, ApiKeyAuth, UserId};
use crate::telemetry::{record_outcome, RequestOutcome};
use vstd::prelude::*;

verus! {

/// What the admission stages decide for one request. `Overloaded` and
/// `Admitted` carry the identity attached at validation; a request that
/// failed validation carries none.
pub enum AdmissionDecision {
    Unauthorized,
    Overloaded(UserId),
    Admitted(UserId),
}

/// Whether a presented credential is bound to an identity in the table.
pub open spec fn spec_authorized(table: Seq<(String, String)>, credential: Option<&String>) -> bool {
    match credential {
        None => false,
        Some(c) => spec_lookup(table, c@) is Some,
    }
}

/// Runs a request through the identity gate and the admission controller.
///
/// An absent or unknown credential short-circuits: no permit is touched and
/// no later stage runs. An authorized request acquires a permit exactly when
/// one is free, and is shed immediately otherwise.
pub fn admit_request(gate: &ApiKeyAuth, pool: &mut PermitPool, credential: Option<&String>) -> (decision:
    AdmissionDecision)
    requires
        old(pool).wf(),
    ensures
        final(pool).wf(),
        final(pool).spec_capacity() == old(pool).spec_capacity(),
        !spec_authorized(gate.spec_table(), credential) ==> decision is Unauthorized
            && final(pool).spec_available() == old(pool).spec_available(),
        spec_authorized(gate.spec_table(), credential) && old(pool).spec_available() == 0 ==> (match (
            decision,
            credential,
        ) {
            (AdmissionDecision::Overloaded(user), Some(c)) => spec_lookup(gate.spec_table(), c@)
                == Some(user.0@) && final(pool).spec_available() == old(pool).spec_available(),
            _ => false,
        }),
        spec_authorized(gate.spec_table(), credential) && old(pool).spec_available() > 0 ==> (match (
            decision,
            credential,
        ) {
            (AdmissionDecision::Admitted(user), Some(c)) => spec_lookup(gate.spec_table(), c@)
                == Some(user.0@) && final(pool).spec_available() == old(pool).spec_available() - 1,
            _ => false,
        }),
{
    match gate.validate(credential) {
        None => AdmissionDecision::Unauthorized,
        Some(user) => {
            if pool.try_acquire() {
                AdmissionDecision::Admitted(user)
            } else {
                AdmissionDecision::Overloaded(user)
            }
        },
    }
}

/// What one request left behind: the recorded outcome, and whether the
/// handler was ever invoked.
pub struct RequestReport {
    pub outcome: RequestOutcome,
    pub handler_ran: bool,
}

/// The status the caller sees for a handler result that beat its deadline.
pub open spec fn spec_handler_status(handler_result: Result<u16, FailureKind>) -> u16 {
    match handler_result {
        Ok(status) => status,
        Err(kind) => spec_status_code(kind),
    }
}

/// Runs one request through the whole pipeline against the given pool state.
///
/// The handler is modelled by how long it runs (`handler_ms`) and what it
/// returns (`handler_result`); both are only consulted when the request is
/// actually admitted. The contract states the pipeline's guarantees:
///
/// - the pool's permits after completion equal the permits before issuance,
///   on every path — no permit is leaked or double-released;
/// - an unauthenticated request never reaches the handler and is recorded
///   under the unauthorized sentinel with the client-unauthorized status;
/// - an authorized request with no free permit is shed immediately, without
///   waiting, with the retry-able overload status;
/// - a handler that outlives the deadline budget yields the gateway-timeout
///   status at the budget's expiry, and the permit is still released;
/// - a handler that finishes in time has its own result classified through.
pub fn process_request(
    gate: &ApiKeyAuth,
    pool: &mut PermitPool,
    route: String,
    method: String,
    credential: Option<&String>,
    deadline_ms: u64,
    handler_ms: u64,
    handler_result: Result<u16, FailureKind>,
) -> (report: RequestReport)
    requires
        old(pool).wf(),
    ensures
        final(pool).wf(),
        final(pool).spec_capacity() == old(pool).spec_capacity(),
        final(pool).spec_available() == old(pool).spec_available(),
        report.outcome.route == route,
        report.outcome.method == method,
        report.handler_ran == (spec_authorized(gate.spec_table(), credential) && old(
            pool,
        ).spec_available() > 0),
        !spec_authorized(gate.spec_table(), credential) ==> report.outcome.status == 401
            && report.outcome.identity@ == spec_unauthorized_sentinel()
            && report.outcome.duration_ms == 0,
        spec_authorized(gate.spec_table(), credential) ==> (match credential {
            Some(c) => spec_lookup(gate.spec_table(), c@) == Some(report.outcome.identity@),
            None => false,
        }),
        spec_authorized(gate.spec_table(), credential) && old(pool).spec_available() == 0
            ==> report.outcome.status == 429 && report.outcome.duration_ms == 0,
        report.handler_ran && handler_ms > deadline_ms ==> report.outcome.status == 504
            && report.outcome.duration_ms == deadline_ms,
        report.handler_ran && handler_ms <= deadline_ms ==> report.outcome.status
            == spec_handler_status(handler_result) && report.outcome.duration_ms == handler_ms,
{
    let decision = admit_request(gate, pool, credential);
    match decision {
        AdmissionDecision::Unauthorized => {
            let (status, _body) = classify(&FailureKind::Unauthorized);
            let outcome = record_outcome(route, method, status, None, 0);
            RequestReport { outcome, handler_ran: false }
        },
        AdmissionDecision::Overloaded(user) => {
            let (status, _body) = classify(&FailureKind::Overloaded);
            let outcome = record_outcome(route, method, status, Some(user), 0);
            RequestReport { outcome, handler_ran: false }
        },
        AdmissionDecision::Admitted(user) => {
            let enforced = enforce_deadline(deadline_ms, handler_ms, handler_result);
            let status = match enforced.result {
                Ok(handler_status) => handler_status,
                Err(kind) => {
                    let (status, _body) = classify(&kind);
                    status
                },
            };
            pool.release();
            let outcome = record_outcome(route, method, status, Some(user), enforced.elapsed_ms);
            RequestReport { outcome, handler_ran: true }
        },
    }
}

} // verus!
