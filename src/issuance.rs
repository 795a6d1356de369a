//! The decisions of one "create and store claim definition" round trip:
//! which timeout a call gets and how its state moves with each event.
use crate::registry::BridgeError;
use vstd::prelude::*;

verus! {

/// Wait budget of a short native operation, in milliseconds.
pub const SHORT_TIMEOUT_MS: u64 = 5000;

/// Wait budget of a long native operation, in milliseconds.
pub const LONG_TIMEOUT_MS: u64 = 50000;

/// How long a native operation may take before its wait gives up.
#[derive(PartialEq, Eq, Structural, Clone, Copy, Debug)]
pub enum CallClass {
    Short,
    Long,
}

pub open spec fn timeout_spec(c: CallClass) -> u64 {
    match c {
        CallClass::Short => SHORT_TIMEOUT_MS,
        CallClass::Long => LONG_TIMEOUT_MS,
    }
}

/// The wait budget of a call class.
pub fn timeout_ms(c: CallClass) -> (r: u64)
    ensures
        r == timeout_spec(c),
{
    match c {
        CallClass::Short => SHORT_TIMEOUT_MS,
        CallClass::Long => LONG_TIMEOUT_MS,
    }
}

/// The class that creating and storing a claim definition belongs to.
pub fn claim_definition_call_class() -> (r: CallClass)
    ensures
        r == CallClass::Long,
{
    CallClass::Long
}

/// Where one issuance round trip stands.
#[derive(Debug)]
pub enum IssuanceState {
    Idle,
    /// The native call was issued under this handle.
    DefinitionRequested(i32),
    /// The native library returned this claim-definition artifact.
    DefinitionStored(String),
    Failed(BridgeError),
}

/// What can happen to an issuance round trip.
#[derive(Debug)]
pub enum IssuanceEvent {
    /// The native call was issued under this handle.
    Issued(i32),
    /// The command ended: the artifact, or why not.
    Settled(Result<String, BridgeError>),
}

pub open spec fn issuance_next(s: IssuanceState, e: IssuanceEvent) -> IssuanceState {
    match (s, e) {
        (IssuanceState::Idle, IssuanceEvent::Issued(h)) => IssuanceState::DefinitionRequested(h),
        (IssuanceState::Idle, IssuanceEvent::Settled(Err(err))) => IssuanceState::Failed(err),
        (IssuanceState::DefinitionRequested(_), IssuanceEvent::Settled(Ok(a))) => IssuanceState::DefinitionStored(a),
        (IssuanceState::DefinitionRequested(_), IssuanceEvent::Settled(Err(err))) => IssuanceState::Failed(err),
        (s, _) => s,
    }
}

pub open spec fn is_terminal(s: IssuanceState) -> bool {
    s is DefinitionStored || s is Failed
}

impl IssuanceState {
    /// Moves the round trip on by one event. A request issued from idle
    /// waits for its outcome; an outcome settles it as stored or failed; a
    /// settled round trip stays as it is, with no retry.
    pub fn step(self, e: IssuanceEvent) -> (r: IssuanceState)
        ensures
            r == issuance_next(self, e),
    {
        match (self, e) {
            (IssuanceState::Idle, IssuanceEvent::Issued(h)) => IssuanceState::DefinitionRequested(h),
            (IssuanceState::Idle, IssuanceEvent::Settled(Err(err))) => IssuanceState::Failed(err),
            (IssuanceState::DefinitionRequested(_), IssuanceEvent::Settled(Ok(a))) => IssuanceState::DefinitionStored(a),
            (IssuanceState::DefinitionRequested(_), IssuanceEvent::Settled(Err(err))) => IssuanceState::Failed(err),
            (s, _) => s,
        }
    }

    /// Whether the round trip has ended.
    pub fn is_settled(&self) -> (r: bool)
        ensures
            r == is_terminal(*self),
    {
        match self {
            IssuanceState::DefinitionStored(_) | IssuanceState::Failed(_) => true,
            _ => false,
        }
    }

    /// The round trip's result once it has ended: the artifact, or the error.
    pub fn into_result(self) -> (r: Option<Result<String, BridgeError>>)
        ensures
            r == match self {
                IssuanceState::DefinitionStored(a) => Some(Ok::<String, BridgeError>(a)),
                IssuanceState::Failed(err) => Some(Err::<String, BridgeError>(err)),
                _ => None::<Result<String, BridgeError>>,
            },
    {
        match self {
            IssuanceState::DefinitionStored(a) => Some(Ok(a)),
            IssuanceState::Failed(err) => Some(Err(err)),
            _ => None,
        }
    }
}

/// A settled round trip never moves again: there is no automatic retry.
pub proof fn lemma_settled_is_final(s: IssuanceState, e: IssuanceEvent)
    requires
        is_terminal(s),
    ensures
        issuance_next(s, e) == s,
{
}

} // verus!
