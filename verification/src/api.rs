//! The lookup handler, as an explicit state machine.
//!
//! A request walks the states `DecodeInputs -> AcquireGuard -> ExecuteQuery
//! -> Respond`.  The surrounding process drives the machine with [`step`]: it
//! hands in the path segments, then the outcome of requesting the connection
//! guard (exclusive access to the single shared store connection, awaited for
//! at most [`GUARD_TIMEOUT_SECS`] seconds), then the ids of the rows the
//! parameterized query matched.  The machine makes every decision: which
//! inputs are rejected before any query, what a guard timeout means, and how
//! the result-set cardinality maps to an outcome.  The guard itself, the
//! query, and the release of the guard on every exit path are the caller's
//! duties; the machine never asks for the guard before both inputs are valid,
//! and asks for at most one query per request.

use crate::data::primitives::{
    parse_u16_spec, valid_name_chars, Discriminator, UserName, MAX_DISCRIMINATOR,
};
use crate::data::structures::UserObject;
use crate::encoding::percent_decoded;
use vstd::prelude::*;
use vstd::utf8::{decode_utf8, valid_utf8};

verus! {

/// How long a request may wait for the connection guard, in seconds.
pub const GUARD_TIMEOUT_SECS: u64 = 5;

/// The terminal outcome of a lookup.
pub enum LookupOutcome {
    /// Exactly one row matched; the resolved record.
    Success(UserObject),
    /// A path segment failed validation; no query was attempted.
    BadRequest,
    /// No row matched.  Not an error for the system's own health.
    NotFound,
    /// The guard was not acquired within the timeout.  Expected under load;
    /// transient, and the caller may retry.
    Contention,
    /// Two or more rows matched one (name, discriminator) pair: the store's
    /// uniqueness guarantee has failed.  Fatal for the request, never
    /// resolved by picking a row, and recoverable for the process.
    InvariantViolation,
}

/// The outward status category of an outcome.  Contention and the duplicate
/// row violation share one internal category, distinct from not-found and
/// bad-request; neither exposes internal details to the caller.
pub enum StatusClass {
    Success,
    BadRequest,
    NotFound,
    Internal,
}

/// The status category an outcome maps to.
pub open spec fn status_class_of(outcome: LookupOutcome) -> StatusClass {
    match outcome {
        LookupOutcome::Success(_) => StatusClass::Success,
        LookupOutcome::BadRequest => StatusClass::BadRequest,
        LookupOutcome::NotFound => StatusClass::NotFound,
        LookupOutcome::Contention => StatusClass::Internal,
        LookupOutcome::InvariantViolation => StatusClass::Internal,
    }
}

/// Map an outcome to its outward status category.
pub fn status_class(outcome: &LookupOutcome) -> (r: StatusClass)
    ensures
        r == status_class_of(*outcome),
{
    match outcome {
        LookupOutcome::Success(_) => StatusClass::Success,
        LookupOutcome::BadRequest => StatusClass::BadRequest,
        LookupOutcome::NotFound => StatusClass::NotFound,
        LookupOutcome::Contention => StatusClass::Internal,
        LookupOutcome::InvariantViolation => StatusClass::Internal,
    }
}

/// The HTTP status code of a status category.
pub open spec fn http_status_of(class: StatusClass) -> u16 {
    match class {
        StatusClass::Success => 200,
        StatusClass::BadRequest => 400,
        StatusClass::NotFound => 404,
        StatusClass::Internal => 500,
    }
}

/// Map a status category to its HTTP status code.
pub fn http_status(class: &StatusClass) -> (r: u16)
    ensures
        r == http_status_of(*class),
{
    match class {
        StatusClass::Success => 200,
        StatusClass::BadRequest => 400,
        StatusClass::NotFound => 404,
        StatusClass::Internal => 500,
    }
}

/// Law: guard contention and the duplicate-row violation map to the same
/// internal category, and that category is distinct from every category a
/// well-served request can map to.
pub proof fn lemma_internal_category_shared()
    ensures
        status_class_of(LookupOutcome::Contention) == status_class_of(
            LookupOutcome::InvariantViolation,
        ),
        status_class_of(LookupOutcome::Contention) is Internal,
        forall|o: LookupOutcome|
            #[trigger] status_class_of(o) is Internal <==> (o is Contention
                || o is InvariantViolation),
{
}

/// Where a lookup stands.
pub enum LookupState {
    /// Waiting for the raw path segments.
    DecodeInputs,
    /// Both inputs validated; waiting for the connection guard.
    AcquireGuard { user_name: UserName, discriminator: Discriminator },
    /// The guard is held; waiting for the rows the query matched.
    ExecuteQuery { user_name: UserName, discriminator: Discriminator },
    /// Terminal: the outcome to emit.  The caller must have released the
    /// guard by the time it emits, on this and every other exit path.
    Respond { outcome: LookupOutcome },
}

/// What the process driving the machine hands in.
pub enum LookupEvent {
    /// The raw name segment, and the raw discriminator segment if the request
    /// had one.
    PathSegments { user_name: Vec<u8>, discriminator: Option<Vec<u8>> },
    /// The guard was acquired within the timeout.
    GuardAcquired,
    /// The timeout elapsed without the guard.
    GuardTimedOut,
    /// The store-assigned ids of the rows the query matched.
    QueryRows { ids: Vec<usize> },
}

/// Which events a state accepts: the protocol the driving process follows.
pub open spec fn accepts(state: LookupState, event: LookupEvent) -> bool {
    match (state, event) {
        (LookupState::DecodeInputs, LookupEvent::PathSegments { .. }) => true,
        (LookupState::AcquireGuard { .. }, LookupEvent::GuardAcquired) => true,
        (LookupState::AcquireGuard { .. }, LookupEvent::GuardTimedOut) => true,
        (LookupState::ExecuteQuery { .. }, LookupEvent::QueryRows { .. }) => true,
        _ => false,
    }
}

/// The name a raw segment decodes and validates to, if any.
pub open spec fn decoded_user_name(seg: Seq<u8>) -> Option<Seq<char>> {
    let d = percent_decoded(seg);
    if valid_utf8(d) && valid_name_chars(decode_utf8(d)) {
        Option::Some(decode_utf8(d))
    } else {
        Option::None
    }
}

/// The discriminator a raw segment decodes and validates to, if any.
pub open spec fn decoded_discriminator(seg: Seq<u8>) -> Option<u16> {
    let d = percent_decoded(seg);
    if valid_utf8(d) {
        match parse_u16_spec(decode_utf8(d)) {
            Option::Some(n) => if n <= MAX_DISCRIMINATOR {
                Option::Some(n)
            } else {
                Option::None
            },
            Option::None => Option::None,
        }
    } else {
        Option::None
    }
}

/// The transition relation of the machine, state by state.
pub open spec fn step_post(state: LookupState, event: LookupEvent, next: LookupState) -> bool {
    match (state, event) {
        (
            LookupState::DecodeInputs,
            LookupEvent::PathSegments { user_name: nseg, discriminator: dseg },
        ) => {
            let name = decoded_user_name(nseg@);
            let disc = match dseg {
                // An absent discriminator segment means the literal value 0:
                // a name-only lookup is an exact lookup for discriminator 0.
                Option::None => Option::Some(0u16),
                Option::Some(seg) => decoded_discriminator(seg@),
            };
            match (name, disc) {
                (Option::Some(cs), Option::Some(n)) => next matches LookupState::AcquireGuard {
                    user_name,
                    discriminator,
                } && user_name@ == cs && discriminator@ == n,
                _ => next == (LookupState::Respond { outcome: LookupOutcome::BadRequest }),
            }
        },
        (
            LookupState::AcquireGuard { user_name, discriminator },
            LookupEvent::GuardAcquired,
        ) => next matches LookupState::ExecuteQuery { user_name: n, discriminator: d } && n@
            == user_name@ && d@ == discriminator@,
        (LookupState::AcquireGuard { .. }, LookupEvent::GuardTimedOut) => next
            == (LookupState::Respond { outcome: LookupOutcome::Contention }),
        (
            LookupState::ExecuteQuery { user_name, discriminator },
            LookupEvent::QueryRows { ids },
        ) => {
            if ids@.len() == 0 {
                next == (LookupState::Respond { outcome: LookupOutcome::NotFound })
            } else if ids@.len() == 1 {
                next matches LookupState::Respond {
                    outcome: LookupOutcome::Success(obj),
                } && obj.id == ids@[0] && obj.user_name@ == user_name@ && obj.discriminator@
                    == discriminator@
            } else {
                next == (LookupState::Respond { outcome: LookupOutcome::InvariantViolation })
            }
        },
        _ => true,
    }
}

/// Advance the machine by one event.
///
/// On the path segments, both validators run and any failure short-circuits
/// to a bad-request response with no query attempted.  A guard timeout
/// short-circuits to the contention response.  On the query rows, zero rows
/// are not-found, exactly one row resolves the record from the returned id
/// and the already-validated inputs, and two or more rows are the fatal
/// uniqueness violation: no row's id is ever returned from such a result.
pub fn step(state: LookupState, event: LookupEvent) -> (next: LookupState)
    requires
        accepts(state, event),
    ensures
        step_post(state, event, next),
{
    match (state, event) {
        (
            LookupState::DecodeInputs,
            LookupEvent::PathSegments { user_name: nseg, discriminator: dseg },
        ) => {
            let name_r = UserName::from_param(nseg.as_slice());
            match dseg {
                Option::None => match name_r {
                    Ok(user_name) => LookupState::AcquireGuard {
                        user_name,
                        // 0 is a valid discriminator.
                        discriminator: Discriminator::new_unchecked(0),
                    },
                    Err(_) => LookupState::Respond { outcome: LookupOutcome::BadRequest },
                },
                Option::Some(seg) => {
                    let disc_r = Discriminator::from_param(seg.as_slice());
                    match (name_r, disc_r) {
                        (Ok(user_name), Ok(discriminator)) => LookupState::AcquireGuard {
                            user_name,
                            discriminator,
                        },
                        _ => LookupState::Respond { outcome: LookupOutcome::BadRequest },
                    }
                },
            }
        },
        (
            LookupState::AcquireGuard { user_name, discriminator },
            LookupEvent::GuardAcquired,
        ) => LookupState::ExecuteQuery { user_name, discriminator },
        (LookupState::AcquireGuard { .. }, LookupEvent::GuardTimedOut) => LookupState::Respond {
            outcome: LookupOutcome::Contention,
        },
        (
            LookupState::ExecuteQuery { user_name, discriminator },
            LookupEvent::QueryRows { ids },
        ) => {
            if ids.len() == 0 {
                LookupState::Respond { outcome: LookupOutcome::NotFound }
            } else if ids.len() == 1 {
                let id = ids[0];
                LookupState::Respond {
                    outcome: LookupOutcome::Success(UserObject { id, user_name, discriminator }),
                }
            } else {
                LookupState::Respond { outcome: LookupOutcome::InvariantViolation }
            }
        },
        // Every other pairing is outside the protocol the caller follows.
        _ => LookupState::Respond { outcome: LookupOutcome::InvariantViolation },
    }
}

} // verus!
