//! The library's failure taxonomy.
//!
//! A missing base address is fatal to the attempted operation; a rejected
//! credential, a non-success status from a reachable peer and a transport
//! failure are per-candidate failures that callers aggregate; a disabled
//! actions flag stops a command before any network attempt is planned.

use vstd::prelude::*;

verus! {

/// One failure of a control-plane operation.
#[derive(Clone, Copy, Debug, PartialEq, Eq, Structural)]
pub enum ApiError {
    /// No base address is configured.
    Configuration,
    /// The peer rejected the credential (a 401-equivalent status).
    Authentication,
    /// The peer answered with the given non-success status.
    Peer(u16),
    /// The request never reached the peer.
    Transport,
    /// The configuration's actions-enabled flag is off.
    ActionsDisabled,
}

/// A status in the 2xx range counts as success.
pub open spec fn spec_is_success(status: u16) -> bool {
    200 <= status < 300
}

/// Exec mirror of [`spec_is_success`].
pub fn is_success_status(status: u16) -> (r: bool)
    ensures
        r == spec_is_success(status),
{
    200 <= status && status < 300
}

/// The error a single failed candidate contributes: a 401 is a credential
/// error, any other non-success status a peer error.
pub open spec fn spec_error_for_status(status: u16) -> ApiError {
    if status == 401 {
        ApiError::Authentication
    } else {
        ApiError::Peer(status)
    }
}

/// Classifies a non-success status.
pub fn error_for_status(status: u16) -> (r: ApiError)
    requires
        !spec_is_success(status),
    ensures
        r == spec_error_for_status(status),
{
    if status == 401 {
        ApiError::Authentication
    } else {
        ApiError::Peer(status)
    }
}

/// What one candidate attempt came back with.
#[derive(Clone, Copy, Debug, PartialEq, Eq, Structural)]
pub enum AttemptOutcome {
    /// A successful status.
    Success,
    /// A reachable peer answered with this non-success status.
    Status(u16),
    /// The request never reached the peer.
    TransportFailed,
}

/// The error one failed attempt contributes.
pub open spec fn spec_outcome_error(o: AttemptOutcome) -> ApiError {
    match o {
        AttemptOutcome::Status(s) => spec_error_for_status(s),
        _ => ApiError::Transport,
    }
}

/// Aggregates the failures of an exhausted candidate run into the one
/// error surfaced to the caller: the first attempt's failure.
pub fn aggregate_failures(outcomes: &Vec<AttemptOutcome>) -> (r: ApiError)
    requires
        outcomes@.len() > 0,
        forall|i: int| 0 <= i < outcomes@.len() ==> !(#[trigger] outcomes@[i] is Success),
        forall|i: int|
            0 <= i < outcomes@.len() ==> (#[trigger] outcomes@[i] matches AttemptOutcome::Status(
                s,
            ) ==> !spec_is_success(s)),
    ensures
        r == spec_outcome_error(outcomes@[0]),
{
    match outcomes[0] {
        AttemptOutcome::Status(s) => error_for_status(s),
        _ => ApiError::Transport,
    }
}

impl ApiError {
    /// A short description of the failure, for surfacing to a caller.
    pub fn describe(&self) -> (r: String)
        ensures
            *self is Configuration ==> r@ == "config.base_url not set"@,
            *self is Authentication ==> r@ == "credential rejected by server"@,
            *self is Transport ==> r@ == "request failed: connection error"@,
            *self is ActionsDisabled ==> r@ == "actions disabled"@,
            forall|s: u16|
                *self == ApiError::Peer(s) ==> r@ == "server returned status "@
                    + crate::strutil::decimal_of(s as nat),
    {
        match self {
            ApiError::Configuration => "config.base_url not set".to_owned(),
            ApiError::Authentication => "credential rejected by server".to_owned(),
            ApiError::Transport => "request failed: connection error".to_owned(),
            ApiError::ActionsDisabled => "actions disabled".to_owned(),
            ApiError::Peer(s) => {
                let num = crate::strutil::u64_to_string(*s as u64);
                crate::strutil::concat2("server returned status ", num.as_str())
            },
        }
    }
}

} // verus!
