use ely_app::cloud_upload::PendingMergeUpload;
use ely_app::profiles::ProfileId;
use ely_app::sync::{SyncStateMessage, SyncWorkGeneration};
use ely_app::sync_updates::{
    bearer_saved, drain_outcome, snapshot_applied, sync_update_step, upload_outcome_update,
    AuthFlowPhase, BearerFollowUp, SyncAction, SyncConnection, SyncDrain, SyncUpdate,
    UploadOutcome,
};

fn profile(id: &str) -> ProfileId {
    ProfileId::new(id)
}

fn message(generation: u64, update: SyncUpdate<String>) -> SyncStateMessage<SyncUpdate<String>> {
    SyncStateMessage { generation: SyncWorkGeneration(generation), update }
}

#[test]
fn upload_outcomes_become_reports() {
    let update: SyncUpdate<String> = upload_outcome_update(
        profile("p"),
        2,
        UploadOutcome::RemoteSnapshot { bytes: vec![1, 2], merge_base_revision: 9, cas_conflict: true },
        100,
    );
    match update {
        SyncUpdate::RemoteSnapshot { profile_id, bytes, merge } => {
            assert_eq!(profile_id.id, "p");
            assert_eq!(bytes, vec![1, 2]);
            assert_eq!(merge.base_revision, 9);
            assert_eq!(merge.conflict_count, 3);
        }
        other => panic!("unexpected report {other:?}"),
    }
    let update: SyncUpdate<String> = upload_outcome_update(
        profile("p"),
        u8::MAX,
        UploadOutcome::RemoteSnapshot { bytes: vec![], merge_base_revision: 1, cas_conflict: true },
        0,
    );
    assert!(matches!(update, SyncUpdate::RemoteSnapshot { merge, .. } if merge.conflict_count == u8::MAX));
    let update: SyncUpdate<String> = upload_outcome_update(
        profile("p"),
        2,
        UploadOutcome::RemoteSnapshot { bytes: vec![], merge_base_revision: 1, cas_conflict: false },
        0,
    );
    assert!(matches!(update, SyncUpdate::RemoteSnapshot { merge, .. } if merge.conflict_count == 0));
    let update: SyncUpdate<String> = upload_outcome_update(profile("p"), 0, UploadOutcome::Uploaded, 77);
    assert!(matches!(update, SyncUpdate::SyncReady { last_synced_at_secs: 77, .. }));
    let update: SyncUpdate<String> =
        upload_outcome_update(profile("p"), 0, UploadOutcome::AwaitingDeviceApproval, 0);
    assert!(matches!(update, SyncUpdate::AwaitingDeviceApproval { finishes_upload: true, .. }));
    let update: SyncUpdate<String> = upload_outcome_update(profile("p"), 0, UploadOutcome::SignedOut, 0);
    assert!(matches!(update, SyncUpdate::AuthenticationExpired { .. }));
    let update: SyncUpdate<String> = upload_outcome_update(profile("p"), 0, UploadOutcome::SnapshotBusy, 0);
    assert!(matches!(update, SyncUpdate::SyncBusy { .. }));
}

#[test]
fn stale_reports_are_retired() {
    let mut drain = SyncDrain::new(false);
    let mut auth = AuthFlowPhase::Idle;
    let active = profile("p");
    let action = sync_update_step(
        &mut drain,
        &mut auth,
        Some(&active),
        SyncWorkGeneration(5),
        message(4, SyncUpdate::SyncReady { profile_id: profile("p"), last_synced_at_secs: 1 }),
    );
    assert!(matches!(action, SyncAction::Retire(SyncUpdate::SyncReady { .. })));
    assert!(drain.connection.is_none());
    assert!(!drain.upload_finished);
}

#[test]
fn reports_of_the_active_profile_set_the_connection() {
    let mut drain = SyncDrain::new(false);
    let mut auth = AuthFlowPhase::Idle;
    let active = profile("p");
    let action = sync_update_step(
        &mut drain,
        &mut auth,
        Some(&active),
        SyncWorkGeneration(1),
        message(1, SyncUpdate::SyncBusy { profile_id: profile("p") }),
    );
    assert!(matches!(action, SyncAction::Nothing));
    assert!(drain.upload_finished);
    assert!(drain.retry_scheduled);
    assert!(matches!(&drain.connection, Some(SyncConnection::SyncError { message }) if message == "Cloud Sync is busy; retrying shortly"));

    let mut other = SyncDrain::new(false);
    sync_update_step(
        &mut other,
        &mut auth,
        Some(&active),
        SyncWorkGeneration(1),
        message(1, SyncUpdate::SyncReady { profile_id: profile("q"), last_synced_at_secs: 3 }),
    );
    assert!(other.upload_finished);
    assert!(other.connection.is_none());

    let outcome = drain_outcome(drain, false);
    assert!(outcome.changed);
    assert!(outcome.trigger_pending_upload);
    assert!(outcome.schedule_retry);
}

#[test]
fn applied_snapshots_merge_until_the_race_limit() {
    let merge = |count| PendingMergeUpload { profile_id: profile("p"), base_revision: 4, conflict_count: count };
    let mut drain = SyncDrain::new(false);
    snapshot_applied(&mut drain, merge(1), Ok(()));
    assert_eq!(drain.merged_upload.as_ref().map(|m| m.conflict_count), Some(1));
    let mut busy = SyncDrain::new(false);
    snapshot_applied(&mut busy, merge(3), Ok(()));
    assert!(busy.merged_upload.is_none());
    assert!(busy.retry_scheduled);
    let mut refused = SyncDrain::new(false);
    snapshot_applied(&mut refused, merge(0), Err("bad snapshot".to_string()));
    assert!(matches!(&refused.connection, Some(SyncConnection::SyncError { message }) if message == "bad snapshot"));
    let outcome = drain_outcome(drain, false);
    assert!(!outcome.trigger_pending_upload);
    assert!(outcome.merged_upload.is_some());
}

#[test]
fn verified_credentials_are_stored_only_for_the_attempt_in_progress() {
    let active = profile("p");
    let mut drain = SyncDrain::new(false);
    let mut auth = AuthFlowPhase::Verifying { profile_id: profile("p"), email: "a@b.c".to_string() };
    let verified = |email: &str| SyncUpdate::AuthVerified {
        profile_id: profile("p"),
        email: email.to_string(),
        user_id: "u".to_string(),
        token: "t".to_string(),
    };
    let action = sync_update_step(&mut drain, &mut auth, Some(&active), SyncWorkGeneration(0), message(0, verified("x@y.z")));
    assert!(matches!(action, SyncAction::ReleaseAndRetire(_)));
    let action = sync_update_step(&mut drain, &mut auth, Some(&active), SyncWorkGeneration(0), message(0, verified("a@b.c")));
    assert!(matches!(action, SyncAction::ReleaseAndSave { .. }));

    let follow_up = bearer_saved(&mut drain, &mut auth, profile("p"), "a@b.c".to_string(), Ok(()));
    assert_eq!(follow_up, BearerFollowUp::ClearSignOutPhase);
    assert!(matches!(auth, AuthFlowPhase::Idle));
    assert!(matches!(drain.connection, Some(SyncConnection::SignedIn)));
    assert!(drain.trigger_initial_sync);

    let mut failed = SyncDrain::new(false);
    let follow_up = bearer_saved(&mut failed, &mut auth, profile("p"), "a@b.c".to_string(), Err("locked".to_string()));
    assert_eq!(follow_up, BearerFollowUp::RetireCredential);
    assert!(matches!(&auth, AuthFlowPhase::Error { message, .. } if message == "locked"));
    assert!(matches!(&failed.connection, Some(SyncConnection::CredentialUnavailable { message }) if message == "locked"));
}

#[test]
fn sign_in_reports_of_other_profiles_only_release_the_form() {
    let active = profile("p");
    let mut drain = SyncDrain::new(false);
    let mut auth = AuthFlowPhase::Idle;
    let action = sync_update_step(
        &mut drain,
        &mut auth,
        Some(&active),
        SyncWorkGeneration(0),
        message(0, SyncUpdate::AuthOtpSent { profile_id: profile("q"), email: "e".to_string() }),
    );
    assert!(matches!(action, SyncAction::ReleaseBarrier));
    assert!(matches!(auth, AuthFlowPhase::Idle));
    let action = sync_update_step(
        &mut drain,
        &mut auth,
        Some(&active),
        SyncWorkGeneration(0),
        message(0, SyncUpdate::AuthOtpSent { profile_id: profile("p"), email: "e".to_string() }),
    );
    assert!(matches!(action, SyncAction::Nothing));
    assert!(matches!(auth, AuthFlowPhase::AwaitingOtp { .. }));
    assert!(drain.auth_changed);
}
