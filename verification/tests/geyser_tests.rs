use solana_smart_stack::geyser::{on_stream_event, Commitment, GeyserStreamMonitor, StreamEvent, WaitStep};

#[test]
fn subscription_tracks_the_wallet() {
    let m = GeyserStreamMonitor::new([0u8; 32]);
    let s = m.subscription();
    assert_eq!(s.filter_name, "target_wallet_tracker");
    assert_eq!(s.vote, Some(false));
    assert_eq!(s.failed, Some(false));
    assert_eq!(s.account_include, vec!["11111111111111111111111111111111".to_string()]);
    assert!(matches!(s.commitment, Commitment::Confirmed));
}

#[test]
fn matching_signature_confirms_in_its_slot() {
    let target = [7u8; 64];
    let step = on_stream_event(&target, StreamEvent::Transaction { signature: vec![7u8; 64], slot: 321 });
    assert!(matches!(step, WaitStep::Confirmed(321)));
}

#[test]
fn other_transactions_and_pings_are_skipped() {
    let target = [7u8; 64];
    let mut other = vec![7u8; 64];
    other[63] = 8;
    assert!(matches!(on_stream_event(&target, StreamEvent::Transaction { signature: other, slot: 1 }), WaitStep::Continue));
    assert!(matches!(on_stream_event(&target, StreamEvent::Transaction { signature: vec![7u8; 63], slot: 1 }), WaitStep::Continue));
    assert!(matches!(on_stream_event(&target, StreamEvent::Transaction { signature: vec![], slot: 1 }), WaitStep::Continue));
    assert!(matches!(on_stream_event(&target, StreamEvent::Ping), WaitStep::Continue));
    assert!(matches!(on_stream_event(&target, StreamEvent::Other), WaitStep::Continue));
}

#[test]
fn empty_signature_matches_nothing_even_a_zero_target() {
    let target = [0u8; 64];
    assert!(matches!(on_stream_event(&target, StreamEvent::Transaction { signature: vec![], slot: 5 }), WaitStep::Continue));
}

#[test]
fn stream_errors_and_ends_stop_the_wait() {
    let target = [0u8; 64];
    let lost = on_stream_event(&target, StreamEvent::Failed("status: Unavailable".to_string()));
    assert_eq!(
        lost.failure_message(),
        Some("Connection lost during real-time tracking loops: status: Unavailable".to_string())
    );
    let ended = on_stream_event(&target, StreamEvent::Closed);
    assert!(matches!(ended, WaitStep::Ended));
    assert_eq!(
        ended.failure_message(),
        Some("Yellowstone gRPC Stream closed unexpectedly before target signature land validation.".to_string())
    );
    assert_eq!(WaitStep::Continue.failure_message(), None);
}

fn run_wait(target: &[u8; 64], events: Vec<StreamEvent>) -> Option<String> {
    for e in events {
        match on_stream_event(target, e) {
            WaitStep::Continue => {}
            WaitStep::Confirmed(slot) => return Some(format!("slot {}", slot)),
            other => return other.failure_message(),
        }
    }
    None
}

#[test]
fn skipped_messages_do_not_change_the_result() {
    let target = [4u8; 64];
    let base = vec![
        StreamEvent::Transaction { signature: vec![1u8; 64], slot: 10 },
        StreamEvent::Transaction { signature: vec![4u8; 64], slot: 11 },
        StreamEvent::Closed,
    ];
    let padded = vec![
        StreamEvent::Ping,
        StreamEvent::Transaction { signature: vec![1u8; 64], slot: 10 },
        StreamEvent::Other,
        StreamEvent::Transaction { signature: vec![], slot: 3 },
        StreamEvent::Ping,
        StreamEvent::Transaction { signature: vec![4u8; 64], slot: 11 },
        StreamEvent::Closed,
    ];
    assert_eq!(run_wait(&target, base), Some("slot 11".to_string()));
    assert_eq!(run_wait(&target, padded), Some("slot 11".to_string()));
}
