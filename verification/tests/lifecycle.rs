use matchbox_socket::{Completion, NotReady, Orchestrator, Phase, ReadinessGate};

#[test]
fn orchestrator_starts_racing() {
    let orchestrator = Orchestrator::new();
    assert_eq!(orchestrator.phase(), Phase::Racing);
    assert!(orchestrator.awaits_signalling());
    assert!(orchestrator.awaits_message_loop());
}

#[test]
fn message_loop_completing_first_is_success() {
    let mut orchestrator = Orchestrator::new();
    assert_eq!(orchestrator.on_completion::<&str>(Completion::MessageLoop), Some(Ok(())));
    assert_eq!(orchestrator.phase(), Phase::Resolved);
    assert!(!orchestrator.awaits_signalling());
    assert!(!orchestrator.awaits_message_loop());
}

#[test]
fn signalling_error_is_the_outcome() {
    let mut orchestrator = Orchestrator::new();
    assert_eq!(
        orchestrator.on_completion(Completion::Signalling(Err("connection failed"))),
        Some(Err("connection failed"))
    );
    assert_eq!(orchestrator.phase(), Phase::Resolved);
}

#[test]
fn clean_signalling_end_keeps_waiting_for_the_message_loop() {
    let mut orchestrator = Orchestrator::new();
    assert_eq!(orchestrator.on_completion::<&str>(Completion::Signalling(Ok(()))), None);
    assert_eq!(orchestrator.phase(), Phase::MessageLoopOnly);
    assert!(!orchestrator.awaits_signalling());
    assert!(orchestrator.awaits_message_loop());
    assert_eq!(orchestrator.on_completion::<&str>(Completion::MessageLoop), Some(Ok(())));
    assert_eq!(orchestrator.phase(), Phase::Resolved);
}

#[test]
fn exhaustion_is_success() {
    let mut orchestrator = Orchestrator::new();
    assert_eq!(orchestrator.on_completion::<&str>(Completion::Signalling(Ok(()))), None);
    assert_eq!(orchestrator.on_completion::<&str>(Completion::Exhausted), Some(Ok(())));
    let mut orchestrator = Orchestrator::new();
    assert_eq!(orchestrator.on_completion::<&str>(Completion::Exhausted), Some(Ok(())));
}

#[test]
fn signalling_completes_once() {
    let mut orchestrator = Orchestrator::new();
    assert_eq!(orchestrator.on_completion::<u8>(Completion::Signalling(Ok(()))), None);
    assert_eq!(orchestrator.on_completion(Completion::Signalling(Err(1u8))), None);
    assert_eq!(orchestrator.phase(), Phase::MessageLoopOnly);
}

#[test]
fn outcome_is_decided_once() {
    let mut orchestrator = Orchestrator::new();
    assert_eq!(orchestrator.on_completion(Completion::Signalling(Err(7u8))), Some(Err(7)));
    assert_eq!(orchestrator.on_completion::<u8>(Completion::MessageLoop), None);
    assert_eq!(orchestrator.on_completion(Completion::Signalling(Err(8u8))), None);
    assert_eq!(orchestrator.on_completion::<u8>(Completion::Exhausted), None);
    assert_eq!(orchestrator.phase(), Phase::Resolved);
}

#[test]
fn readiness_counts_channels_in_order() {
    let mut readiness = ReadinessGate::new(3);
    assert!(!readiness.is_operational());
    for channel in 0..3 {
        assert_eq!(readiness.awaited(), Some(channel));
        assert_eq!(readiness.on_signal(true), Ok(()));
    }
    assert_eq!(readiness.awaited(), None);
    assert!(readiness.is_operational());
}

#[test]
fn readiness_of_no_channel_is_operational() {
    let readiness = ReadinessGate::new(0);
    assert_eq!(readiness.awaited(), None);
    assert!(readiness.is_operational());
}

#[test]
fn closed_readiness_link_is_a_violation() {
    let mut readiness = ReadinessGate::new(2);
    assert_eq!(readiness.on_signal(false), Err(NotReady { channel: 0 }));
    assert_eq!(readiness.awaited(), Some(0));
    assert_eq!(readiness.on_signal(true), Ok(()));
    assert_eq!(readiness.on_signal(false), Err(NotReady { channel: 1 }));
    assert_eq!(readiness.awaited(), Some(1));
    assert!(!readiness.is_operational());
}

#[test]
fn signals_after_the_last_channel_change_nothing() {
    let mut readiness = ReadinessGate::new(1);
    assert_eq!(readiness.on_signal(true), Ok(()));
    assert_eq!(readiness.on_signal(true), Ok(()));
    assert_eq!(readiness.on_signal(false), Ok(()));
    assert!(readiness.is_operational());
    assert_eq!(readiness.awaited(), None);
}
