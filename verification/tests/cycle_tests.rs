use solana_smart_stack::agent::RecoveryStrategy;
use solana_smart_stack::cycle::{
    first_blockhash, CycleAction, CycleEnd, CycleEvent, Phase, RecoveryCycle, CYCLE_COUNT,
    FAULT_INJECTION_RUNS,
};

const LIVE: [u8; 32] = [7u8; 32];

fn verdict(action: &str, refresh: bool, tip: u64) -> RecoveryStrategy {
    RecoveryStrategy {
        action: action.to_string(),
        refresh_blockhash: refresh,
        modified_tip: tip,
        reasoning: "blockhash expired".to_string(),
    }
}

#[test]
fn faults_are_injected_on_the_first_two_runs() {
    assert_eq!(CYCLE_COUNT, 10);
    assert_eq!(FAULT_INJECTION_RUNS, 2);
    assert_eq!(first_blockhash(1, LIVE), [0u8; 32]);
    assert_eq!(first_blockhash(2, LIVE), [0u8; 32]);
    assert_eq!(first_blockhash(3, LIVE), LIVE);
    let (c, a) = RecoveryCycle::start(1, 1_700_000_000, 100, LIVE, 12_000);
    assert!(matches!(a, CycleAction::Submit { blockhash, tip: 12_000 } if blockhash == [0u8; 32]));
    assert!(matches!(c.phase, Phase::AwaitingSubmission));
}

#[test]
fn direct_success_is_recorded_in_the_next_slot() {
    let (c, a) = RecoveryCycle::start(5, 1_700_000_000, 100, LIVE, 12_000);
    assert!(matches!(a, CycleAction::Submit { blockhash: LIVE, tip: 12_000 }));
    let (c, a) = c.step(CycleEvent::Submitted(Ok("bundle-1".to_string())));
    assert!(c.is_done());
    match a {
        CycleAction::RecordAfterPause(p) => {
            let e = p.with_latency(850);
            assert_eq!(e.timestamp, 1_700_000_000);
            assert_eq!(e.slot_submitted, 101);
            assert_eq!(e.commitment_progression, "Submitted -> Processed -> Confirmed");
            assert_eq!(e.tip_lamports, 12_000);
            assert_eq!(e.latency_ms, 850);
            assert_eq!(e.bundle_id, Some("bundle-1".to_string()));
            assert_eq!(e.failure_classification, None);
        }
        _ => panic!("expected a record after a pause"),
    }
}

#[test]
fn full_recovery_with_fresh_blockhash() {
    let (c, _) = RecoveryCycle::start(1, 42, 500, LIVE, 10_000);
    let (c, a) = c.step(CycleEvent::Submitted(Err("Blockhash not found".to_string())));
    assert!(matches!(&a, CycleAction::Analyze { log, tip: 10_000 } if log == "Blockhash not found"));
    let (c, a) = c.step(CycleEvent::Analyzed(Ok(verdict("RETRY", true, 14_000))));
    assert!(matches!(a, CycleAction::FetchBlockhash));
    let fresh = [9u8; 32];
    let (c, a) = c.step(CycleEvent::BlockhashFetched(Some(fresh)));
    assert!(matches!(a, CycleAction::Submit { blockhash, tip: 14_000 } if blockhash == fresh));
    let (c, a) = c.step(CycleEvent::Submitted(Ok("bundle-2".to_string())));
    assert!(matches!(a, CycleAction::AwaitConfirmation { target } if target == [0u8; 64]));
    let (c, a) = c.step(CycleEvent::Landed(Some(503)));
    assert!(c.is_done());
    match a {
        CycleAction::Record(p) => {
            let e = p.with_latency(1200);
            assert_eq!(e.slot_submitted, 503);
            assert_eq!(e.commitment_progression, "Submitted -> Fault Intercepted -> AI Recovered -> Confirmed");
            assert_eq!(e.tip_lamports, 14_000);
            assert_eq!(e.bundle_id, Some("bundle-2".to_string()));
            assert_eq!(e.failure_classification, Some("Recovered: Blockhash not found".to_string()));
        }
        _ => panic!("expected a record"),
    }
}

#[test]
fn refresh_failure_keeps_the_old_blockhash_and_a_lost_stream_uses_two_slots_on() {
    let (c, _) = RecoveryCycle::start(2, 42, 500, LIVE, 10_000);
    let (c, _) = c.step(CycleEvent::Submitted(Err("expired".to_string())));
    let (c, _) = c.step(CycleEvent::Analyzed(Ok(verdict("RETRY", true, 11_000))));
    let (c, a) = c.step(CycleEvent::BlockhashFetched(None));
    assert!(matches!(a, CycleAction::Submit { blockhash, tip: 11_000 } if blockhash == [0u8; 32]));
    let (c, _) = c.step(CycleEvent::Submitted(Ok("b".to_string())));
    let (_, a) = c.step(CycleEvent::Landed(None));
    assert!(matches!(a, CycleAction::Record(p) if p.slot_submitted == 502));
}

#[test]
fn retry_without_refresh_resubmits_at_once() {
    let (c, _) = RecoveryCycle::start(9, 42, 500, LIVE, 10_000);
    let (c, _) = c.step(CycleEvent::Submitted(Err("congested".to_string())));
    let (c, a) = c.step(CycleEvent::Analyzed(Ok(verdict("RETRY", false, 13_000))));
    assert!(matches!(a, CycleAction::Submit { blockhash: LIVE, tip: 13_000 }));
    let (c, a) = c.step(CycleEvent::Submitted(Err("still refused".to_string())));
    assert!(c.is_done());
    assert!(matches!(a, CycleAction::Finish(CycleEnd::RetryRejected)));
}

#[test]
fn other_verdicts_and_agent_errors_end_the_cycle() {
    for action in ["ABORT", "HOLD", "retry"] {
        let (c, _) = RecoveryCycle::start(1, 42, 500, LIVE, 10_000);
        let (c, _) = c.step(CycleEvent::Submitted(Err("x".to_string())));
        let (c, a) = c.step(CycleEvent::Analyzed(Ok(verdict(action, true, 99_000))));
        assert!(c.is_done());
        assert!(matches!(a, CycleAction::Finish(CycleEnd::AgentDeclined)));
    }
    let (c, _) = RecoveryCycle::start(1, 42, 500, LIVE, 10_000);
    let (c, _) = c.step(CycleEvent::Submitted(Err("x".to_string())));
    let (c, a) = c.step(CycleEvent::Analyzed(Err("timeout".to_string())));
    assert!(c.is_done());
    assert!(matches!(a, CycleAction::Finish(CycleEnd::AgentUnavailable)));
}

#[test]
fn a_cycle_takes_at_most_five_events() {
    let (mut c, _) = RecoveryCycle::start(1, 42, 500, LIVE, 10_000);
    let events = vec![
        CycleEvent::Submitted(Err("e".to_string())),
        CycleEvent::Analyzed(Ok(verdict("RETRY", true, 12_000))),
        CycleEvent::BlockhashFetched(Some([1u8; 32])),
        CycleEvent::Submitted(Ok("id".to_string())),
        CycleEvent::Landed(Some(600)),
    ];
    let mut submits = 0;
    let mut steps = 0;
    for e in events {
        assert!(!c.is_done());
        let (n, a) = c.step(e);
        if matches!(a, CycleAction::Submit { .. }) {
            submits += 1;
        }
        steps += 1;
        c = n;
    }
    assert!(c.is_done());
    assert_eq!(steps, 5);
    assert_eq!(submits, 1);
}
