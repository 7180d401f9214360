use ely_app::sync::{sync_platform_label, SyncStateSender, SyncWorkGeneration};

#[derive(Clone, Debug, PartialEq)]
enum Update {
    SignedOut { profile_id: String },
}

#[test]
fn sender_stamps_the_captured_generation() -> Result<(), Box<dyn std::error::Error>> {
    let (sender, receiver) = std::sync::mpsc::channel();
    let generation = SyncWorkGeneration(7);
    let sender = SyncStateSender::new(generation, sender);

    if sender.send(Update::SignedOut { profile_id: "profile".to_string() }).is_err() {
        return Err("the receiver is gone".into());
    }

    assert_eq!(receiver.recv()?.generation, generation);
    Ok(())
}

#[test]
fn old_generation_stays_stale_after_an_aba_profile_sequence()
-> Result<(), Box<dyn std::error::Error>> {
    let (sender, receiver) = std::sync::mpsc::channel();
    let mut current = SyncWorkGeneration::default();
    let old_sender = SyncStateSender::new(current, sender);
    current.advance();
    current.advance();

    if old_sender.send(Update::SignedOut { profile_id: "profile".to_string() }).is_err() {
        return Err("the receiver is gone".into());
    }

    assert!(!receiver.recv()?.belongs_to(current));
    Ok(())
}

#[test]
fn generation_wraps_at_the_largest_value() {
    let mut generation = SyncWorkGeneration(u64::MAX);
    generation.advance();
    assert_eq!(generation, SyncWorkGeneration(0));
    let sender_generation = SyncWorkGeneration(3);
    let (tx, rx) = std::sync::mpsc::channel();
    let sender = SyncStateSender::new(sender_generation, tx);
    let message = sender.message_for(Update::SignedOut { profile_id: "p".to_string() });
    assert!(message.belongs_to(SyncWorkGeneration(3)));
    drop(rx);
    let unsent = sender
        .send(Update::SignedOut { profile_id: "p".to_string() })
        .expect_err("the receiver is gone");
    assert_eq!(unsent.generation, sender_generation);
    assert_eq!(unsent.update, Update::SignedOut { profile_id: "p".to_string() });
}

#[test]
fn platform_labels() {
    assert_eq!(sync_platform_label("macos"), "macos");
    assert_eq!(sync_platform_label("windows"), "windows");
    assert_eq!(sync_platform_label("linux"), "linux");
    assert_eq!(sync_platform_label("freebsd"), "other");
}
