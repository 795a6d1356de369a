use issuer_claim::issuance::{
    claim_definition_call_class, timeout_ms, CallClass, IssuanceEvent, IssuanceState, LONG_TIMEOUT_MS,
    SHORT_TIMEOUT_MS,
};
use issuer_claim::registry::BridgeError;

#[test]
fn timeouts_by_class() {
    assert_eq!(timeout_ms(CallClass::Short), SHORT_TIMEOUT_MS);
    assert_eq!(timeout_ms(CallClass::Long), 50000);
    assert_eq!(claim_definition_call_class(), CallClass::Long);
}

#[test]
fn request_then_success_stores_definition() {
    let s = IssuanceState::Idle.step(IssuanceEvent::Issued(4));
    assert!(matches!(s, IssuanceState::DefinitionRequested(4)));
    assert!(!s.is_settled());
    let s = s.step(IssuanceEvent::Settled(Ok("{\"def\":1}".to_string())));
    assert!(s.is_settled());
    assert_eq!(s.into_result(), Some(Ok("{\"def\":1}".to_string())));
}

#[test]
fn request_then_timeout_fails() {
    let s = IssuanceState::Idle.step(IssuanceEvent::Issued(4));
    let s = s.step(IssuanceEvent::Settled(Err(BridgeError::TimeoutExpired)));
    assert!(matches!(s, IssuanceState::Failed(BridgeError::TimeoutExpired)));
}

#[test]
fn settled_state_does_not_retry() {
    let s = IssuanceState::Failed(BridgeError::DeliveredFailure(3));
    let s = s.step(IssuanceEvent::Issued(9));
    let s = s.step(IssuanceEvent::Settled(Ok("x".to_string())));
    assert_eq!(s.into_result(), Some(Err(BridgeError::DeliveredFailure(3))));
}

#[test]
fn allocation_failure_from_idle_fails() {
    let s = IssuanceState::Idle.step(IssuanceEvent::Settled(Err(BridgeError::HandleSpaceExhausted)));
    assert!(matches!(s, IssuanceState::Failed(BridgeError::HandleSpaceExhausted)));
    assert_eq!(IssuanceState::Idle.into_result(), None);
}
