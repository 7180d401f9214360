//! What sync workers report back to the shell, and how the shell routes
//! each report: which connection state it shows, whether an upload is
//! finished or starts again, what the device panel and the sign-in form
//! receive, and which reports are stale and retired.
use vstd::prelude::*;

use crate::cloud_upload::PendingMergeUpload;
use crate::profiles::ProfileId;
use crate::sync::{SyncStateMessage, SyncWorkGeneration, advanced_by, lemma_old_generation_stays_stale};
use crate::text::{chars_equal, chars_of, owned};

verus! {

/// A report from a sync worker about the profile it worked for.
#[derive(Clone, Debug)]
pub enum SyncUpdate<D> {
    AuthenticationExpired { profile_id: ProfileId },
    AwaitingDeviceApproval { profile_id: ProfileId, finishes_upload: bool },
    RemoteSnapshot { profile_id: ProfileId, bytes: Vec<u8>, merge: PendingMergeUpload },
    SyncReady { profile_id: ProfileId, last_synced_at_secs: u64 },
    SyncBusy { profile_id: ProfileId },
    SyncError { profile_id: ProfileId, message: String },
    CredentialUnavailable { profile_id: ProfileId, message: String },
    DevicesLoaded { profile_id: ProfileId, devices: Vec<D>, current_code: String },
    DevicesError { profile_id: ProfileId, message: String },
    SignOutSucceeded { profile_id: ProfileId },
    SignOutFailed { profile_id: ProfileId, message: String },
    AuthOtpSent { profile_id: ProfileId, email: String },
    AuthVerified { profile_id: ProfileId, email: String, user_id: String, token: String },
    AuthError { profile_id: ProfileId, email: String, message: String },
}

// ---------------------------------------------------------------------------
// Upload outcomes
// ---------------------------------------------------------------------------

/// How an upload of the sync snapshot ended, as the sync engine reports it.
#[derive(Clone, Debug)]
pub enum UploadOutcome {
    /// No credential is stored: nothing was synced.
    SignedOut,
    /// The device still waits for approval.
    AwaitingDeviceApproval,
    /// A newer remote snapshot came back, to be merged and uploaded on top
    /// of `merge_base_revision`; `cas_conflict` when the upload lost a race.
    RemoteSnapshot { bytes: Vec<u8>, merge_base_revision: u64, cas_conflict: bool },
    /// The remote snapshot already matched.
    AlreadyCurrent,
    /// The snapshot was uploaded.
    Uploaded,
    /// The remote snapshot head is locked by another device.
    SnapshotBusy,
}

/// The conflict count of the merge that follows a remote snapshot: one more
/// than before (saturating) after a lost race, else zero.
pub open spec fn next_conflict_count(prior: u8, cas_conflict: bool) -> u8 {
    if cas_conflict {
        if prior == u8::MAX { u8::MAX } else { (prior + 1) as u8 }
    } else {
        0
    }
}

/// `update` is the report of an upload for `profile_id` that ended with
/// `outcome`, when the merge it uploaded had `prior` conflicts and the
/// clock read `now_secs`.
pub open spec fn upload_outcome_update_spec<D>(
    update: SyncUpdate<D>,
    profile_id: Seq<char>,
    prior: u8,
    outcome: UploadOutcome,
    now_secs: u64,
) -> bool {
    match outcome {
        UploadOutcome::SignedOut => update matches SyncUpdate::AuthenticationExpired { profile_id: p }
            && p@ == profile_id,
        UploadOutcome::AwaitingDeviceApproval => update matches SyncUpdate::AwaitingDeviceApproval {
            profile_id: p,
            finishes_upload,
        } && p@ == profile_id && finishes_upload,
        UploadOutcome::RemoteSnapshot { bytes, merge_base_revision, cas_conflict } => update matches SyncUpdate::RemoteSnapshot { profile_id: p, bytes: b, merge }
            && p@ == profile_id && b == bytes && merge.profile_id@ == profile_id
            && merge.base_revision == merge_base_revision && merge.conflict_count
            == next_conflict_count(prior, cas_conflict),
        UploadOutcome::AlreadyCurrent | UploadOutcome::Uploaded => update matches SyncUpdate::SyncReady {
            profile_id: p,
            last_synced_at_secs,
        } && p@ == profile_id && last_synced_at_secs == now_secs,
        UploadOutcome::SnapshotBusy => update matches SyncUpdate::SyncBusy { profile_id: p } && p@
            == profile_id,
    }
}

/// The report an upload worker sends for `profile_id` once the engine
/// answered with `outcome`; `prior_conflict_count` is the conflict count of
/// the merge it uploaded (zero for a plain upload) and `now_secs` the clock
/// in seconds since the epoch.
pub fn upload_outcome_update<D>(
    profile_id: ProfileId,
    prior_conflict_count: u8,
    outcome: UploadOutcome,
    now_secs: u64,
) -> (update: SyncUpdate<D>)
    ensures
        upload_outcome_update_spec(update, profile_id@, prior_conflict_count, outcome, now_secs),
        outcome is AlreadyCurrent || outcome is Uploaded ==> (update matches SyncUpdate::SyncReady {
            profile_id: p,
            last_synced_at_secs: t,
        } && p@ == profile_id@ && t == now_secs),
        outcome is SnapshotBusy ==> (update matches SyncUpdate::SyncBusy { profile_id: p } && p@
            == profile_id@),
        outcome is SignedOut ==> (update matches SyncUpdate::AuthenticationExpired { profile_id: p }
            && p@ == profile_id@),
        outcome is AwaitingDeviceApproval ==> (update matches SyncUpdate::AwaitingDeviceApproval {
            profile_id: p,
            finishes_upload: true,
        } && p@ == profile_id@),
        outcome is RemoteSnapshot ==> (update matches SyncUpdate::RemoteSnapshot { profile_id: p, bytes, merge }
            && p@ == profile_id@ && merge.profile_id@ == profile_id@),
{
    match outcome {
        UploadOutcome::SignedOut => SyncUpdate::AuthenticationExpired { profile_id },
        UploadOutcome::AwaitingDeviceApproval => SyncUpdate::AwaitingDeviceApproval {
            profile_id,
            finishes_upload: true,
        },
        UploadOutcome::RemoteSnapshot { bytes, merge_base_revision, cas_conflict } => {
            let conflict_count = if cas_conflict {
                prior_conflict_count.saturating_add(1)
            } else {
                0
            };
            let merge = PendingMergeUpload {
                profile_id: profile_id.duplicate(),
                base_revision: merge_base_revision,
                conflict_count,
            };
            SyncUpdate::RemoteSnapshot { profile_id, bytes, merge }
        },
        UploadOutcome::AlreadyCurrent | UploadOutcome::Uploaded => SyncUpdate::SyncReady {
            profile_id,
            last_synced_at_secs: now_secs,
        },
        UploadOutcome::SnapshotBusy => SyncUpdate::SyncBusy { profile_id },
    }
}

// ---------------------------------------------------------------------------
// Routing reports
// ---------------------------------------------------------------------------

/// Where the sign-in form stands.
#[derive(Clone, Debug)]
pub enum AuthFlowPhase {
    Idle,
    AwaitingOtp { profile_id: ProfileId, email: String },
    Verifying { profile_id: ProfileId, email: String },
    Error { profile_id: ProfileId, email: String, message: String },
}

/// The connection state that the Sync page shows for the active profile.
#[derive(Clone, Debug)]
pub enum SyncConnection {
    SignedIn,
    AwaitingDeviceApproval,
    SyncReady { last_synced_at_secs: u64 },
    SyncError { message: String },
    CredentialUnavailable { message: String },
}

/// What the reports of one drain of the inbox have gathered so far.
#[derive(Clone, Debug)]
pub struct SyncDrain {
    /// The connection state to show, the latest one reported.
    pub connection: Option<SyncConnection>,
    /// The sign-in form changed.
    pub auth_changed: bool,
    /// A first sync of the active profile starts after the drain.
    pub trigger_initial_sync: bool,
    /// A merged snapshot to upload after the drain.
    pub merged_upload: Option<PendingMergeUpload>,
    /// The upload in flight has ended.
    pub upload_finished: bool,
    /// The device panel changed.
    pub devices_changed: bool,
    /// A retry of the upload is scheduled shortly.
    pub retry_scheduled: bool,
}

/// What the shell does for one routed report, besides updating the drain
/// and the sign-in form.
#[derive(Clone, Debug)]
pub enum SyncAction<D> {
    Nothing,
    /// The report comes from stale work or an attempt that is over: it is
    /// retired (its credential, if any, is dropped).
    Retire(SyncUpdate<D>),
    /// Apply the remote snapshot to the browser state, then report the
    /// result to `snapshot_applied`.
    ApplySnapshot { bytes: Vec<u8>, merge: PendingMergeUpload },
    /// Show the loaded devices in the device panel.
    DevicesReady { profile_id: ProfileId, devices: Vec<D>, current_code: String },
    /// Show the error in the device panel.
    DevicesFailed { profile_id: ProfileId, message: String },
    /// Let a new sign-in attempt start.
    ReleaseBarrier,
    /// Let a new sign-in attempt start, and retire the report.
    ReleaseAndRetire(SyncUpdate<D>),
    /// Let a new sign-in attempt start, and store the verified credential,
    /// then report the result to `bearer_saved`.
    ReleaseAndSave { profile_id: ProfileId, email: String, user_id: String, token: String },
}

/// The message shown while the snapshot head is busy.
pub open spec fn busy_message() -> Seq<char> {
    "Cloud Sync is busy; retrying shortly"@
}

/// After this many lost races in a row a merge is not uploaded again at
/// once; a retry is scheduled instead.
pub const CAS_RETRY_LIMIT: u8 = 3;

/// `d2` is `d` showing that the snapshot head is busy, with a retry scheduled.
pub open spec fn shows_busy(d2: SyncDrain, d: SyncDrain) -> bool {
    &&& d2.connection matches Some(SyncConnection::SyncError { message: m }) && m@ == busy_message()
    &&& d2.retry_scheduled
    &&& d2.upload_finished == d.upload_finished
    &&& d2.auth_changed == d.auth_changed
    &&& d2.trigger_initial_sync == d.trigger_initial_sync
    &&& d2.merged_upload == d.merged_upload
    &&& d2.devices_changed == d.devices_changed
}

/// `active` is the profile `profile_id`.
pub open spec fn is_active(active: Option<ProfileId>, profile_id: ProfileId) -> bool {
    active matches Some(a) && a@ == profile_id@
}

/// The active profile, when there is one, is `profile_id`.
pub open spec fn active_profile_is(active: Option<&ProfileId>, profile_id: ProfileId) -> bool {
    match active {
        Some(a) => a@ == profile_id@,
        None => false,
    }
}

/// The drain `d` with the upload marked finished.
pub open spec fn finished(d: SyncDrain) -> SyncDrain {
    SyncDrain { upload_finished: true, ..d }
}

/// The drain `d` showing `connection`.
pub open spec fn showing(d: SyncDrain, connection: SyncConnection) -> SyncDrain {
    SyncDrain { connection: Some(connection), ..d }
}

/// The sign-in attempt of `profile_id` with `email` is the one being verified.
pub open spec fn verifying(auth: AuthFlowPhase, profile_id: ProfileId, email: String) -> bool {
    auth matches AuthFlowPhase::Verifying { profile_id: owner, email: expected } && owner@
        == profile_id@ && expected@ == email@
}

/// How one report of the current or a stale generation is routed, from the
/// drain `d` and the sign-in form `auth` to `d2`, `auth2` and `action`:
/// stale reports are retired; reports about uploads end the upload and set
/// the connection of the active profile; device reports of the active
/// profile go to the device panel; sign-in reports move the form of the
/// active profile, and a verified credential is stored only when it answers
/// the attempt being verified. Reports of expired or unavailable
/// credentials and of sign-out are reconciled before routing and change
/// nothing here.
pub open spec fn sync_update_step_spec<D>(
    d: SyncDrain,
    auth: AuthFlowPhase,
    active: Option<ProfileId>,
    current: SyncWorkGeneration,
    message: SyncStateMessage<SyncUpdate<D>>,
    d2: SyncDrain,
    auth2: AuthFlowPhase,
    action: SyncAction<D>,
) -> bool {
    if message.generation.0 != current.0 {
        d2 == d && auth2 == auth && action == SyncAction::Retire(message.update)
    } else {
        match message.update {
            SyncUpdate::AwaitingDeviceApproval { profile_id, finishes_upload } => {
                let d1 = SyncDrain { upload_finished: d.upload_finished || finishes_upload, ..d };
                auth2 == auth && action == SyncAction::<D>::Nothing && d2 == if is_active(
                    active,
                    profile_id,
                ) {
                    showing(d1, SyncConnection::AwaitingDeviceApproval)
                } else {
                    d1
                }
            },
            SyncUpdate::RemoteSnapshot { profile_id, bytes, merge } => {
                auth2 == auth && d2 == finished(d) && action == if is_active(active, profile_id) {
                    SyncAction::<D>::ApplySnapshot { bytes, merge }
                } else {
                    SyncAction::<D>::Nothing
                }
            },
            SyncUpdate::SyncReady { profile_id, last_synced_at_secs } => {
                auth2 == auth && action == SyncAction::<D>::Nothing && d2 == if is_active(
                    active,
                    profile_id,
                ) {
                    showing(finished(d), SyncConnection::SyncReady { last_synced_at_secs })
                } else {
                    finished(d)
                }
            },
            SyncUpdate::SyncBusy { profile_id } => {
                auth2 == auth && action == SyncAction::<D>::Nothing && if is_active(
                    active,
                    profile_id,
                ) {
                    shows_busy(d2, finished(d))
                } else {
                    d2 == finished(d)
                }
            },
            SyncUpdate::SyncError { profile_id, message } => {
                auth2 == auth && action == SyncAction::<D>::Nothing && d2 == if is_active(
                    active,
                    profile_id,
                ) {
                    showing(finished(d), SyncConnection::SyncError { message })
                } else {
                    finished(d)
                }
            },
            SyncUpdate::DevicesLoaded { profile_id, devices, current_code } => {
                auth2 == auth && if is_active(active, profile_id) {
                    d2 == SyncDrain { devices_changed: true, ..d } && action
                        == SyncAction::DevicesReady { profile_id, devices, current_code }
                } else {
                    d2 == d && action == SyncAction::<D>::Nothing
                }
            },
            SyncUpdate::DevicesError { profile_id, message } => {
                auth2 == auth && if is_active(active, profile_id) {
                    d2 == SyncDrain { devices_changed: true, ..d } && action
                        == SyncAction::<D>::DevicesFailed { profile_id, message }
                } else {
                    d2 == d && action == SyncAction::<D>::Nothing
                }
            },
            SyncUpdate::AuthOtpSent { profile_id, email } => {
                if is_active(active, profile_id) {
                    d2 == SyncDrain { auth_changed: true, ..d } && auth2
                        == AuthFlowPhase::AwaitingOtp { profile_id, email } && action
                        == SyncAction::<D>::Nothing
                } else {
                    d2 == d && auth2 == auth && action == SyncAction::<D>::ReleaseBarrier
                }
            },
            SyncUpdate::AuthVerified { profile_id, email, user_id, token } => {
                d2 == d && auth2 == auth && action == if is_active(active, profile_id) && verifying(
                    auth,
                    profile_id,
                    email,
                ) {
                    SyncAction::<D>::ReleaseAndSave { profile_id, email, user_id, token }
                } else {
                    SyncAction::ReleaseAndRetire(
                        SyncUpdate::AuthVerified { profile_id, email, user_id, token },
                    )
                }
            },
            SyncUpdate::AuthError { profile_id, email, message } => {
                action == SyncAction::<D>::ReleaseBarrier && if is_active(active, profile_id) {
                    d2 == SyncDrain { auth_changed: true, ..d } && auth2 == AuthFlowPhase::Error {
                        profile_id,
                        email,
                        message,
                    }
                } else {
                    d2 == d && auth2 == auth
                }
            },
            _ => d2 == d && auth2 == auth && action == SyncAction::<D>::Nothing,
        }
    }
}

/// Whether `active` is the profile `profile_id`.
fn active_is(active: Option<&ProfileId>, profile_id: &ProfileId) -> (same: bool)
    ensures
        same == is_active(
            match active {
                Some(a) => Some(*a),
                None => None,
            },
            *profile_id,
        ),
{
    match active {
        Some(a) => a.same_as(profile_id),
        None => false,
    }
}

/// Whether the sign-in form is verifying the attempt of `profile_id` with `email`.
fn is_verifying(auth: &AuthFlowPhase, profile_id: &ProfileId, email: &String) -> (answer: bool)
    ensures
        answer == verifying(*auth, *profile_id, *email),
{
    match auth {
        AuthFlowPhase::Verifying { profile_id: owner, email: expected } => owner.same_as(profile_id)
            && chars_equal(&chars_of(expected.as_str()), &chars_of(email.as_str())),
        _ => false,
    }
}

/// Routes one report from the inbox, in the generation `current` of sync
/// work and with `active` the active profile (none when the browser state
/// cannot be read).
pub fn sync_update_step<D>(
    drain: &mut SyncDrain,
    auth: &mut AuthFlowPhase,
    active: Option<&ProfileId>,
    current: SyncWorkGeneration,
    message: SyncStateMessage<SyncUpdate<D>>,
) -> (action: SyncAction<D>)
    ensures
        sync_update_step_spec(
            *old(drain),
            *old(auth),
            match active {
                Some(a) => Some(*a),
                None => None,
            },
            current,
            message,
            *final(drain),
            *final(auth),
            action,
        ),
        message.generation.0 != current.0 ==> final(drain).connection == old(drain).connection
            && final(drain).upload_finished == old(drain).upload_finished,
        message.generation.0 == current.0 ==> match message.update {
            SyncUpdate::SyncError { profile_id, message: m } => final(drain).upload_finished && (
            active_profile_is(active, profile_id) ==> final(drain).connection == Some(
                SyncConnection::SyncError { message: m },
            )) && (!active_profile_is(active, profile_id) ==> final(drain).connection == old(
                drain,
            ).connection),
            SyncUpdate::SyncReady { profile_id, last_synced_at_secs: t } => final(drain).upload_finished
                && (active_profile_is(active, profile_id) ==> final(drain).connection == Some(
                SyncConnection::SyncReady { last_synced_at_secs: t },
            )) && (!active_profile_is(active, profile_id) ==> final(drain).connection == old(
                drain,
            ).connection),
            _ => true,
        },
{
    if !message.belongs_to(current) {
        return SyncAction::Retire(message.update);
    }
    match message.update {
        SyncUpdate::AwaitingDeviceApproval { profile_id, finishes_upload } => {
            drain.upload_finished = drain.upload_finished || finishes_upload;
            if active_is(active, &profile_id) {
                drain.connection = Some(SyncConnection::AwaitingDeviceApproval);
            }
            SyncAction::Nothing
        },
        SyncUpdate::RemoteSnapshot { profile_id, bytes, merge } => {
            drain.upload_finished = true;
            if active_is(active, &profile_id) {
                SyncAction::ApplySnapshot { bytes, merge }
            } else {
                SyncAction::Nothing
            }
        },
        SyncUpdate::SyncReady { profile_id, last_synced_at_secs } => {
            drain.upload_finished = true;
            if active_is(active, &profile_id) {
                drain.connection = Some(SyncConnection::SyncReady { last_synced_at_secs });
            }
            SyncAction::Nothing
        },
        SyncUpdate::SyncBusy { profile_id } => {
            drain.upload_finished = true;
            if active_is(active, &profile_id) {
                drain.connection = Some(
                    SyncConnection::SyncError {
                        message: String::from_str("Cloud Sync is busy; retrying shortly"),
                    },
                );
                drain.retry_scheduled = true;
            }
            SyncAction::Nothing
        },
        SyncUpdate::SyncError { profile_id, message } => {
            drain.upload_finished = true;
            if active_is(active, &profile_id) {
                drain.connection = Some(SyncConnection::SyncError { message });
            }
            SyncAction::Nothing
        },
        SyncUpdate::DevicesLoaded { profile_id, devices, current_code } => {
            if active_is(active, &profile_id) {
                drain.devices_changed = true;
                SyncAction::DevicesReady { profile_id, devices, current_code }
            } else {
                SyncAction::Nothing
            }
        },
        SyncUpdate::DevicesError { profile_id, message } => {
            if active_is(active, &profile_id) {
                drain.devices_changed = true;
                SyncAction::DevicesFailed { profile_id, message }
            } else {
                SyncAction::Nothing
            }
        },
        SyncUpdate::AuthOtpSent { profile_id, email } => {
            if active_is(active, &profile_id) {
                *auth = AuthFlowPhase::AwaitingOtp { profile_id, email };
                drain.auth_changed = true;
                SyncAction::Nothing
            } else {
                SyncAction::ReleaseBarrier
            }
        },
        SyncUpdate::AuthVerified { profile_id, email, user_id, token } => {
            if active_is(active, &profile_id) && is_verifying(auth, &profile_id, &email) {
                SyncAction::ReleaseAndSave { profile_id, email, user_id, token }
            } else {
                SyncAction::ReleaseAndRetire(
                    SyncUpdate::AuthVerified { profile_id, email, user_id, token },
                )
            }
        },
        SyncUpdate::AuthError { profile_id, email, message } => {
            if active_is(active, &profile_id) {
                *auth = AuthFlowPhase::Error { profile_id, email, message };
                drain.auth_changed = true;
            }
            SyncAction::ReleaseBarrier
        },
        _ => SyncAction::Nothing,
    }
}

impl SyncDrain {
    /// The drain at the start of a tick; `trigger_initial_sync` when the
    /// active profile changed and needs a first sync.
    pub fn new(trigger_initial_sync: bool) -> (d: Self)
        ensures
            d == (SyncDrain {
                connection: None,
                auth_changed: false,
                trigger_initial_sync,
                merged_upload: None,
                upload_finished: false,
                devices_changed: false,
                retry_scheduled: false,
            }),
    {
        SyncDrain {
            connection: None,
            auth_changed: false,
            trigger_initial_sync,
            merged_upload: None,
            upload_finished: false,
            devices_changed: false,
            retry_scheduled: false,
        }
    }
}

/// The remote snapshot of the active profile was applied (`Ok`) or refused
/// with a message. A refusal is shown; an applied snapshot is uploaded
/// again as a merge, unless the merge already lost `CAS_RETRY_LIMIT` races,
/// in which case the head is shown busy and a retry is scheduled.
pub fn snapshot_applied(drain: &mut SyncDrain, merge: PendingMergeUpload, applied: Result<(), String>)
    ensures
        applied matches Err(message) ==> *final(drain) == showing(
            *old(drain),
            SyncConnection::SyncError { message },
        ),
        applied is Ok && merge.conflict_count >= CAS_RETRY_LIMIT ==> shows_busy(
            *final(drain),
            *old(drain),
        ),
        applied is Ok && merge.conflict_count < CAS_RETRY_LIMIT ==> *final(drain) == (SyncDrain {
            merged_upload: Some(merge),
            ..*old(drain)
        }),
{
    match applied {
        Err(message) => {
            drain.connection = Some(SyncConnection::SyncError { message });
        },
        Ok(()) => {
            if merge.conflict_count >= CAS_RETRY_LIMIT {
                drain.connection = Some(
                    SyncConnection::SyncError {
                        message: String::from_str("Cloud Sync is busy; retrying shortly"),
                    },
                );
                drain.retry_scheduled = true;
            } else {
                drain.merged_upload = Some(merge);
            }
        },
    }
}

/// What else the shell does once a verified credential was stored or not.
#[derive(Clone, Copy, Debug, PartialEq, Eq, Structural)]
pub enum BearerFollowUp {
    /// Stored: any sign-out still pending for the profile is forgotten.
    ClearSignOutPhase,
    /// Not stored: the verified credential is retired.
    RetireCredential,
}

/// The verified credential of `profile_id`, signed in as `email`, was
/// stored (`Ok`) or not, with the message to show. Stored: the form goes
/// back to idle, the profile shows signed in and a first sync starts. Not
/// stored: the form shows the error and the profile shows the credential
/// unavailable.
pub fn bearer_saved(
    drain: &mut SyncDrain,
    auth: &mut AuthFlowPhase,
    profile_id: ProfileId,
    email: String,
    saved: Result<(), String>,
) -> (follow_up: BearerFollowUp)
    ensures
        saved is Ok ==> follow_up == BearerFollowUp::ClearSignOutPhase && *final(auth)
            == AuthFlowPhase::Idle && *final(drain) == (SyncDrain {
            connection: Some(SyncConnection::SignedIn),
            trigger_initial_sync: true,
            auth_changed: true,
            ..*old(drain)
        }),
        saved matches Err(message) ==> follow_up == BearerFollowUp::RetireCredential,
        saved matches Err(message) ==> (*final(auth) matches AuthFlowPhase::Error {
            profile_id: p,
            email: e,
            message: m,
        } && p@ == profile_id@ && e@ == email@ && m@ == message@),
        saved matches Err(message) ==> (final(drain).connection matches Some(
            SyncConnection::CredentialUnavailable { message: m },
        ) && m@ == message@),
        saved is Err ==> final(drain).auth_changed,
        saved is Err ==> final(drain).trigger_initial_sync == old(drain).trigger_initial_sync,
        saved is Err ==> final(drain).merged_upload == old(drain).merged_upload,
        saved is Err ==> final(drain).upload_finished == old(drain).upload_finished,
        saved is Err ==> final(drain).devices_changed == old(drain).devices_changed,
        saved is Err ==> final(drain).retry_scheduled == old(drain).retry_scheduled,
{
    match saved {
        Ok(()) => {
            *auth = AuthFlowPhase::Idle;
            drain.connection = Some(SyncConnection::SignedIn);
            drain.trigger_initial_sync = true;
            drain.auth_changed = true;
            BearerFollowUp::ClearSignOutPhase
        },
        Err(message) => {
            let shown = owned(message.as_str());
            *auth = AuthFlowPhase::Error { profile_id, email, message };
            drain.connection = Some(SyncConnection::CredentialUnavailable { message: shown });
            drain.auth_changed = true;
            BearerFollowUp::RetireCredential
        },
    }
}

/// What the shell does once the inbox is drained.
#[derive(Clone, Debug)]
pub struct DrainOutcome {
    /// The connection state to show, if any report set one.
    pub connection: Option<SyncConnection>,
    /// The upload in flight has ended.
    pub upload_finished: bool,
    /// Start a first sync of the active profile.
    pub trigger_initial_sync: bool,
    /// Upload this merge (dropping any upload that waits).
    pub merged_upload: Option<PendingMergeUpload>,
    /// Start the upload that waited for the one in flight.
    pub trigger_pending_upload: bool,
    /// Schedule a retry of the upload shortly.
    pub schedule_retry: bool,
    /// Upload now because a scheduled retry is due.
    pub trigger_retry: bool,
    /// Something shown changed: the shell redraws.
    pub changed: bool,
}

/// What the shell does after draining into `drain`, when a scheduled retry
/// is due (`retry_due`): a merge is uploaded when one was asked for, else
/// the waiting upload starts when the upload in flight ended; the shell
/// redraws when the form, the devices, the connection or an upload changed.
pub fn drain_outcome(drain: SyncDrain, retry_due: bool) -> (outcome: DrainOutcome)
    ensures
        outcome.connection == drain.connection,
        outcome.upload_finished == drain.upload_finished,
        outcome.trigger_initial_sync == drain.trigger_initial_sync,
        outcome.merged_upload == drain.merged_upload,
        outcome.trigger_pending_upload == (drain.merged_upload is None && drain.upload_finished),
        outcome.schedule_retry == drain.retry_scheduled,
        outcome.trigger_retry == retry_due,
        outcome.changed == (drain.auth_changed || drain.devices_changed
            || drain.trigger_initial_sync || drain.merged_upload is Some || retry_due
            || drain.connection is Some),
{
    let changed = drain.auth_changed || drain.devices_changed || drain.trigger_initial_sync
        || drain.merged_upload.is_some() || retry_due || drain.connection.is_some();
    let trigger_pending_upload = drain.merged_upload.is_none() && drain.upload_finished;
    DrainOutcome {
        connection: drain.connection,
        upload_finished: drain.upload_finished,
        trigger_initial_sync: drain.trigger_initial_sync,
        merged_upload: drain.merged_upload,
        trigger_pending_upload,
        schedule_retry: drain.retry_scheduled,
        trigger_retry: retry_due,
        changed,
    }
}

/// A report from work started in an earlier generation is retired and
/// changes neither the drain nor the sign-in form, however the generation
/// moved on since (an ABA sequence of profiles included), as long as it
/// advanced fewer than `2^64` times.
pub proof fn lemma_stale_reports_change_nothing<D>(
    d: SyncDrain,
    auth: AuthFlowPhase,
    active: Option<ProfileId>,
    steps: nat,
    message: SyncStateMessage<SyncUpdate<D>>,
    d2: SyncDrain,
    auth2: AuthFlowPhase,
    action: SyncAction<D>,
)
    requires
        0 < steps < 0x1_0000_0000_0000_0000,
        sync_update_step_spec(
            d,
            auth,
            active,
            SyncWorkGeneration(advanced_by(message.generation.0, steps)),
            message,
            d2,
            auth2,
            action,
        ),
    ensures
        d2 == d,
        auth2 == auth,
        action == SyncAction::Retire(message.update),
{
    lemma_old_generation_stays_stale(message.generation.0, steps);
}

/// Reports of the current generation about uploads end the upload in
/// flight, and those of the active profile are shown: a sync error with its
/// message, readiness with its time, a busy head with the busy message and
/// a retry, a device awaiting approval as such. Reports about other
/// profiles leave the shown connection as it was, and reports that are not
/// about uploads neither end the upload nor change the connection (a
/// remote snapshot ends the upload but shows nothing until it is applied).
pub proof fn lemma_upload_reports_are_shown<D>(
    d: SyncDrain,
    auth: AuthFlowPhase,
    active: Option<ProfileId>,
    current: SyncWorkGeneration,
    message: SyncStateMessage<SyncUpdate<D>>,
    d2: SyncDrain,
    auth2: AuthFlowPhase,
    action: SyncAction<D>,
)
    requires
        message.generation.0 == current.0,
        sync_update_step_spec(d, auth, active, current, message, d2, auth2, action),
    ensures
        match message.update {
            SyncUpdate::SyncError { profile_id, message: m } => d2.upload_finished && if is_active(
                active,
                profile_id,
            ) {
                d2.connection == Some(SyncConnection::SyncError { message: m })
            } else {
                d2.connection == d.connection
            },
            SyncUpdate::SyncReady { profile_id, last_synced_at_secs: t } => d2.upload_finished
                && if is_active(active, profile_id) {
                d2.connection == Some(SyncConnection::SyncReady { last_synced_at_secs: t })
            } else {
                d2.connection == d.connection
            },
            SyncUpdate::SyncBusy { profile_id } => d2.upload_finished && if is_active(
                active,
                profile_id,
            ) {
                (d2.connection matches Some(SyncConnection::SyncError { message: m }) && m@
                    == "Cloud Sync is busy; retrying shortly"@) && d2.retry_scheduled
            } else {
                d2.connection == d.connection && d2.retry_scheduled == d.retry_scheduled
            },
            SyncUpdate::AwaitingDeviceApproval { profile_id, finishes_upload } => d2.upload_finished
                == (d.upload_finished || finishes_upload) && if is_active(active, profile_id) {
                d2.connection == Some(SyncConnection::AwaitingDeviceApproval)
            } else {
                d2.connection == d.connection
            },
            SyncUpdate::RemoteSnapshot { .. } => d2.upload_finished && d2.connection
                == d.connection,
            _ => d2.upload_finished == d.upload_finished && d2.connection == d.connection,
        },
{
}

/// How each end of an upload is reported, for the profile the upload was
/// for: an upload that was made or found the remote snapshot already
/// current makes the profile ready as of the clock; a busy head is
/// reported busy; a missing credential as expired; a device waiting for
/// approval as such, ending the upload; a newer remote snapshot is handed
/// back with its bytes, to be merged on top of its revision, one conflict
/// more (up to the largest count) after a lost race and none otherwise.
pub proof fn lemma_upload_outcomes_are_reported<D>(
    update: SyncUpdate<D>,
    profile_id: Seq<char>,
    prior: u8,
    outcome: UploadOutcome,
    now_secs: u64,
)
    requires
        upload_outcome_update_spec(update, profile_id, prior, outcome, now_secs),
    ensures
        match outcome {
            UploadOutcome::AlreadyCurrent | UploadOutcome::Uploaded => update matches SyncUpdate::SyncReady { profile_id: p, last_synced_at_secs: t }
                && p@ == profile_id && t == now_secs,
            UploadOutcome::SnapshotBusy => update matches SyncUpdate::SyncBusy { profile_id: p } && p@
                == profile_id,
            UploadOutcome::SignedOut => update matches SyncUpdate::AuthenticationExpired { profile_id: p }
                && p@ == profile_id,
            UploadOutcome::AwaitingDeviceApproval => update matches SyncUpdate::AwaitingDeviceApproval { profile_id: p, finishes_upload: true }
                && p@ == profile_id,
            UploadOutcome::RemoteSnapshot { bytes, merge_base_revision, cas_conflict } => update matches SyncUpdate::RemoteSnapshot { profile_id: p, bytes: b, merge }
                && p@ == profile_id && b == bytes && merge.profile_id@ == profile_id
                && merge.base_revision == merge_base_revision && merge.conflict_count == if !cas_conflict {
                0
            } else if prior < 255 {
                prior + 1
            } else {
                255
            },
        },
{
}

/// Reports of the current generation for the device panel and the sign-in
/// form: devices and device errors of the active profile go to the panel
/// (and mark it changed), those of other profiles are dropped; a code sent
/// to the active profile moves its form to waiting for that code, and a
/// sign-in error of the active profile shows the error, while the form of
/// another profile is only released; a verified credential is stored only
/// when it answers the attempt of the active profile that is being
/// verified, and retired otherwise. None of these touch the connection or
/// the upload.
pub proof fn lemma_panel_and_form_reports<D>(
    d: SyncDrain,
    auth: AuthFlowPhase,
    active: Option<ProfileId>,
    current: SyncWorkGeneration,
    message: SyncStateMessage<SyncUpdate<D>>,
    d2: SyncDrain,
    auth2: AuthFlowPhase,
    action: SyncAction<D>,
)
    requires
        message.generation.0 == current.0,
        sync_update_step_spec(d, auth, active, current, message, d2, auth2, action),
    ensures
        match message.update {
            SyncUpdate::DevicesLoaded { profile_id, devices, current_code } => if is_active(
                active,
                profile_id,
            ) {
                d2.devices_changed && (action matches SyncAction::DevicesReady {
                    profile_id: p,
                    devices: ds,
                    current_code: c,
                } && p@ == profile_id@ && ds == devices && c@ == current_code@)
            } else {
                action is Nothing && d2.devices_changed == d.devices_changed
            },
            SyncUpdate::DevicesError { profile_id, message: m } => if is_active(active, profile_id) {
                d2.devices_changed && (action matches SyncAction::DevicesFailed {
                    profile_id: p,
                    message: e,
                } && p@ == profile_id@ && e@ == m@)
            } else {
                action is Nothing && d2.devices_changed == d.devices_changed
            },
            SyncUpdate::AuthOtpSent { profile_id, email } => if is_active(active, profile_id) {
                d2.auth_changed && (auth2 matches AuthFlowPhase::AwaitingOtp {
                    profile_id: p,
                    email: e,
                } && p@ == profile_id@ && e@ == email@)
            } else {
                action is ReleaseBarrier && auth2 == auth
            },
            SyncUpdate::AuthError { profile_id, email, message: m } => action is ReleaseBarrier
                && if is_active(active, profile_id) {
                d2.auth_changed && (auth2 matches AuthFlowPhase::Error {
                    profile_id: p,
                    email: e,
                    message: x,
                } && p@ == profile_id@ && e@ == email@ && x@ == m@)
            } else {
                auth2 == auth
            },
            SyncUpdate::AuthVerified { profile_id, email, .. } => auth2 == auth && if is_active(
                active,
                profile_id,
            ) && (auth matches AuthFlowPhase::Verifying { profile_id: owner, email: expected }
                && owner@ == profile_id@ && expected@ == email@) {
                action is ReleaseAndSave
            } else {
                action is ReleaseAndRetire
            },
            _ => true,
        },
        !(message.update is DevicesLoaded || message.update is DevicesError) ==> d2.devices_changed
            == d.devices_changed,
        (message.update is DevicesLoaded || message.update is DevicesError
            || message.update is AuthOtpSent || message.update is AuthError
            || message.update is AuthVerified) ==> d2.connection == d.connection
            && d2.upload_finished == d.upload_finished,
{
}

} // verus!
