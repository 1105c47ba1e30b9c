use std::time::{SystemTime, UNIX_EPOCH};
use zzz::codec::decode_envelope;
use zzz::envelope::encode_envelope;
use zzz::{CoordinationMessage, MessageEnvelope, WorkflowPhase};

fn create_test_message() -> CoordinationMessage {
    CoordinationMessage::StartPlanning {
        task_id: 123,
        task_description: "Test task".to_string(),
    }
}

#[test]
fn test_new_targeted_creates_correct_envelope() {
    let message = create_test_message();
    let target_pane = "test-pane";
    let sender = "test-sender";

    let envelope = MessageEnvelope::new_targeted(message.clone(), target_pane, sender);

    assert_eq!(envelope.target_pane, Some(target_pane.to_string()));
    assert_eq!(envelope.sender, sender);
    assert!(matches!(
        envelope.coordination_message,
        CoordinationMessage::StartPlanning { .. }
    ));
    assert!(envelope.timestamp > 0);

    let now = SystemTime::now().duration_since(UNIX_EPOCH).unwrap().as_secs();
    assert!(envelope.timestamp <= now);
    assert!(envelope.timestamp > now - 5);
}

#[test]
fn test_new_broadcast_creates_correct_envelope() {
    let message = create_test_message();
    let sender = "broadcast-sender";

    let envelope = MessageEnvelope::new_broadcast(message.clone(), sender);

    assert_eq!(envelope.target_pane, None);
    assert_eq!(envelope.sender, sender);
    assert!(matches!(
        envelope.coordination_message,
        CoordinationMessage::StartPlanning { .. }
    ));
    assert!(envelope.timestamp > 0);

    let now = SystemTime::now().duration_since(UNIX_EPOCH).unwrap().as_secs();
    assert!(envelope.timestamp <= now);
    assert!(envelope.timestamp > now - 5);
}

#[test]
fn test_is_targeted_to_with_targeted_message() {
    let message = create_test_message();
    let target_pane = "specific-pane";
    let envelope = MessageEnvelope::new_targeted(message, target_pane, "sender");

    assert!(envelope.is_targeted_to(target_pane));
    assert!(!envelope.is_targeted_to("different-pane"));
    assert!(!envelope.is_targeted_to(""));
}

#[test]
fn test_is_targeted_to_with_broadcast_message() {
    let message = create_test_message();
    let envelope = MessageEnvelope::new_broadcast(message, "sender");

    assert!(envelope.is_targeted_to("any-pane"));
    assert!(envelope.is_targeted_to("another-pane"));
    assert!(envelope.is_targeted_to(""));
}

#[test]
fn test_is_broadcast_identification() {
    let message = create_test_message();

    let targeted_envelope = MessageEnvelope::new_targeted(message.clone(), "pane", "sender");
    let broadcast_envelope = MessageEnvelope::new_broadcast(message, "sender");

    assert!(!targeted_envelope.is_broadcast());
    assert!(broadcast_envelope.is_broadcast());
}

#[test]
fn test_serialization_roundtrip() {
    let message = CoordinationMessage::PhaseTransition {
        from: WorkflowPhase::PlanningInProgress,
        to: WorkflowPhase::ImplementationInProgress,
    };
    let envelope = MessageEnvelope::new_targeted(message, "test-pane", "test-sender");

    let serialized = encode_envelope(&envelope);
    let deserialized = decode_envelope(&serialized).expect("Deserialization failed");

    assert_eq!(envelope.target_pane, deserialized.target_pane);
    assert_eq!(envelope.sender, deserialized.sender);
    assert_eq!(envelope.timestamp, deserialized.timestamp);

    match (&envelope.coordination_message, &deserialized.coordination_message) {
        (
            CoordinationMessage::PhaseTransition { from: f1, to: t1 },
            CoordinationMessage::PhaseTransition { from: f2, to: t2 },
        ) => {
            assert_eq!(f1, f2);
            assert_eq!(t1, t2);
        }
        _ => panic!("Coordination message type mismatch after deserialization"),
    }
}

#[test]
fn test_timestamp_generation_validity() {
    let message = create_test_message();
    let envelope1 = MessageEnvelope::new_broadcast(message.clone(), "sender1");
    let envelope2 = MessageEnvelope::new_broadcast(message, "sender2");

    assert!(envelope1.timestamp > 1_000_000_000);
    assert!(envelope2.timestamp > 1_000_000_000);
    assert!(envelope2.timestamp >= envelope1.timestamp);
}

#[test]
fn test_edge_cases_with_empty_and_special_strings() {
    let message = create_test_message();

    let envelope_empty_target = MessageEnvelope::new_targeted(message.clone(), "", "sender");
    let envelope_empty_sender = MessageEnvelope::new_targeted(message.clone(), "pane", "");

    assert_eq!(envelope_empty_target.target_pane, Some("".to_string()));
    assert_eq!(envelope_empty_target.sender, "sender");
    assert_eq!(envelope_empty_sender.target_pane, Some("pane".to_string()));
    assert_eq!(envelope_empty_sender.sender, "");

    let special_target = "pane-with-special-chars_123!@#";
    let special_sender = "sender.with.dots/and\\slashes";
    let envelope_special =
        MessageEnvelope::new_targeted(message.clone(), special_target, special_sender);

    assert_eq!(envelope_special.target_pane, Some(special_target.to_string()));
    assert_eq!(envelope_special.sender, special_sender);
    assert!(envelope_special.is_targeted_to(special_target));
    assert!(!envelope_special.is_targeted_to("different"));

    let unicode_target = "pane-æµ‹è¯•-ðŸš€";
    let unicode_sender = "sender-Ñ‚ÐµÑÑ‚-ðŸŽ¯";
    let envelope_unicode = MessageEnvelope::new_targeted(message, unicode_target, unicode_sender);

    assert_eq!(envelope_unicode.target_pane, Some(unicode_target.to_string()));
    assert_eq!(envelope_unicode.sender, unicode_sender);
    assert!(envelope_unicode.is_targeted_to(unicode_target));
}

#[test]
fn test_different_coordination_message_types() {
    let messages = vec![
        CoordinationMessage::StartPlanning {
            task_id: 1,
            task_description: "Plan task".to_string(),
        },
        CoordinationMessage::PlanReady {
            todo_file_path: "/path/to/todo.md".to_string(),
        },
        CoordinationMessage::StartImplementation,
        CoordinationMessage::TaskCompleted {
            task_id: "task-123".to_string(),
        },
        CoordinationMessage::AllTasksComplete,
        CoordinationMessage::StartReview,
        CoordinationMessage::ReviewComplete {
            review_file_path: "/path/to/review.md".to_string(),
        },
        CoordinationMessage::PhaseTransition {
            from: WorkflowPhase::PlanningInProgress,
            to: WorkflowPhase::ImplementationInProgress,
        },
        CoordinationMessage::FileChanged {
            file_path: "/some/file.rs".to_string(),
            event_type: "modified".to_string(),
        },
    ];

    for (i, message) in messages.into_iter().enumerate() {
        let envelope = MessageEnvelope::new_broadcast(message, &format!("sender-{}", i));

        assert!(envelope.is_broadcast());
        assert_eq!(envelope.sender, format!("sender-{}", i));
        assert!(envelope.timestamp > 0);

        let serialized = encode_envelope(&envelope);
        decode_envelope(&serialized).expect("Deserialization failed");
    }
}

#[test]
fn broadcast_is_targeted_to_every_title() {
    let envelope = MessageEnvelope::new_broadcast(CoordinationMessage::StartReview, "s");
    for title in ["", " ", "Overseer", "x\u{0}y", "пример"] {
        assert!(envelope.is_targeted_to(title));
    }
}

#[test]
fn targeted_matches_exact_title_only() {
    let envelope = MessageEnvelope::new_targeted(CoordinationMessage::StartReview, "Overseer", "s");
    assert!(envelope.is_targeted_to("Overseer"));
    assert!(!envelope.is_targeted_to("overseer"));
    assert!(!envelope.is_targeted_to("Overseer "));
    assert!(!envelope.is_targeted_to("Overs"));
    assert!(!envelope.is_targeted_to(""));
}

#[test]
fn constructors_with_given_time() {
    let t = MessageEnvelope::new_targeted_at(create_test_message(), "", "me", 1_700_000_123);
    assert_eq!(t.target_pane, Some(String::new()));
    assert_eq!(t.sender, "me");
    assert_eq!(t.timestamp, 1_700_000_123);
    assert!(!t.is_broadcast());
    let b = MessageEnvelope::new_broadcast_at(CoordinationMessage::StartReview, "пример", 7);
    assert_eq!(b.target_pane, None);
    assert_eq!(b.sender, "пример");
    assert_eq!(b.timestamp, 7);
    assert!(b.is_broadcast());
}
