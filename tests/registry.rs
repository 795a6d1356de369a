use issuer_claim::registry::{callback_outcome, BridgeError, Registry, WaitStep};

fn expect_done(step: WaitStep) -> Result<String, BridgeError> {
    match step {
        WaitStep::Done(r) => r,
        WaitStep::KeepWaiting => panic!("expected the wait to end"),
    }
}

#[test]
fn first_handle_is_one_and_handles_increase() {
    let mut reg = Registry::new();
    assert_eq!(reg.allocate(), Ok(1));
    assert_eq!(reg.allocate(), Ok(2));
}

#[test]
fn delivered_payload_reaches_waiter() {
    let mut reg = Registry::new();
    let h = reg.allocate().unwrap();
    assert_eq!(reg.deliver(h, 0, "{\"ref\":1}".to_string()), Ok(()));
    assert_eq!(expect_done(reg.poll(h, 0, 1000)), Ok("{\"ref\":1}".to_string()));
}

#[test]
fn delivered_failure_reaches_waiter() {
    let mut reg = Registry::new();
    let h = reg.allocate().unwrap();
    assert_eq!(reg.deliver(h, 212, String::new()), Ok(()));
    assert_eq!(expect_done(reg.poll(h, 0, 1000)), Err(BridgeError::DeliveredFailure(212)));
}

#[test]
fn second_delivery_is_spurious() {
    let mut reg = Registry::new();
    let h = reg.allocate().unwrap();
    assert_eq!(reg.deliver(h, 0, "first".to_string()), Ok(()));
    assert_eq!(reg.deliver(h, 0, "second".to_string()), Err(BridgeError::SpuriousCallback(h)));
    assert_eq!(expect_done(reg.poll(h, 0, 1000)), Ok("first".to_string()));
}

#[test]
fn pending_wait_keeps_waiting_before_timeout() {
    let mut reg = Registry::new();
    let h = reg.allocate().unwrap();
    assert!(matches!(reg.poll(h, 999, 1000), WaitStep::KeepWaiting));
    assert_eq!(reg.deliver(h, 0, "late but in time".to_string()), Ok(()));
}

#[test]
fn timeout_retires_slot() {
    let mut reg = Registry::new();
    let h = reg.allocate().unwrap();
    assert_eq!(expect_done(reg.poll(h, 1000, 1000)), Err(BridgeError::TimeoutExpired));
    assert_eq!(reg.deliver(h, 0, "late".to_string()), Err(BridgeError::SpuriousCallback(h)));
    assert_eq!(expect_done(reg.poll(h, 0, 1000)), Err(BridgeError::UnknownHandle(h)));
}

#[test]
fn delivery_to_unknown_handle_is_spurious() {
    let mut reg = Registry::new();
    assert_eq!(reg.deliver(77, 0, "x".to_string()), Err(BridgeError::SpuriousCallback(77)));
}

#[test]
fn rejected_invocation_retires_slot() {
    let mut reg = Registry::new();
    let h = reg.allocate().unwrap();
    assert_eq!(reg.invoked(h, 113), Err(BridgeError::InvocationRejected(113)));
    assert_eq!(reg.deliver(h, 0, "x".to_string()), Err(BridgeError::SpuriousCallback(h)));
}

#[test]
fn accepted_invocation_keeps_slot() {
    let mut reg = Registry::new();
    let h = reg.allocate().unwrap();
    assert_eq!(reg.invoked(h, 0), Ok(()));
    assert_eq!(reg.deliver(h, 0, "x".to_string()), Ok(()));
}

#[test]
fn thousand_allocations_are_distinct() {
    let mut reg = Registry::new();
    let mut seen = std::collections::HashSet::new();
    for _ in 0..1000 {
        let h = reg.allocate().unwrap();
        assert!(seen.insert(h));
    }
    assert_eq!(seen.len(), 1000);
    for h in 1..=1000 {
        assert!(matches!(reg.poll(h, 0, 1), WaitStep::KeepWaiting));
    }
}

#[test]
fn callback_outcome_maps_status() {
    assert_eq!(callback_outcome(0, "a".to_string()), Ok("a".to_string()));
    assert_eq!(callback_outcome(-1, "a".to_string()), Err(BridgeError::DeliveredFailure(-1)));
}
