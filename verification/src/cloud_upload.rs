//! When the shell uploads the sync snapshot: a debounced request, at most
//! one upload in flight, and requests that arrive meanwhile kept for later.
use vstd::prelude::*;

use crate::profiles::ProfileId;

verus! {

/// A remote snapshot that was merged and now has to be uploaded on top of
/// the remote revision it was merged with.
#[derive(Clone, Debug)]
pub struct PendingMergeUpload {
    pub profile_id: ProfileId,
    pub base_revision: u64,
    pub conflict_count: u8,
}

/// Whether `candidate` replaces the merge upload kept so far: any merge
/// replaces none, a merge of another profile replaces, and for the same
/// profile a later base revision wins, or on the same revision more
/// conflicts win.
pub open spec fn merge_replaces_spec(current: Option<PendingMergeUpload>, candidate: PendingMergeUpload) -> bool {
    match current {
        None => true,
        Some(current) => candidate.profile_id@ != current.profile_id@
            || candidate.base_revision > current.base_revision
            || (candidate.base_revision == current.base_revision
                && candidate.conflict_count > current.conflict_count),
    }
}

/// Whether `candidate` replaces the merge upload kept so far.
pub fn merge_replaces(current: Option<&PendingMergeUpload>, candidate: &PendingMergeUpload) -> (replaces: bool)
    ensures
        replaces == merge_replaces_spec(
            match current {
                Some(c) => Some(*c),
                None => None,
            },
            *candidate,
        ),
{
    match current {
        None => true,
        Some(current) => !candidate.profile_id.same_as(&current.profile_id)
            || candidate.base_revision > current.base_revision
            || (candidate.base_revision == current.base_revision
                && candidate.conflict_count > current.conflict_count),
    }
}

/// What to do when an upload is asked for.
#[derive(Clone, Copy, Debug, PartialEq, Eq, Structural)]
pub enum ScheduleAction {
    /// Cloud sync is not available: nothing happens.
    Skip,
    /// An upload is running: the request is kept for when it finishes.
    Queued,
    /// A debounced upload is already waiting.
    AlreadyScheduled,
    /// Start the debounce timer; an upload follows when it fires.
    StartDebounce,
}

/// How an upload begins.
#[derive(Clone, Debug)]
pub enum UploadStart {
    /// Cloud sync is off: nothing is uploaded and nothing stays pending.
    Disabled,
    /// An upload is running: this one is kept for when it finishes.
    Queued,
    /// Upload now, on top of this merge when there is one for the active profile.
    Start(Option<PendingMergeUpload>),
}

/// The upload bookkeeping of the shell.
#[derive(Clone, Debug)]
pub struct CloudUploadState {
    /// A debounce timer is running and will ask for an upload.
    pub scheduled: bool,
    /// An upload is running.
    pub in_flight: bool,
    /// An upload was asked for while another was running.
    pub pending: bool,
    /// The merge that the pending upload must build on.
    pub pending_merge: Option<PendingMergeUpload>,
}

/// The merge kept after `merge` is queued on top of `current`.
pub open spec fn merge_after_queue(
    current: Option<PendingMergeUpload>,
    merge: Option<PendingMergeUpload>,
) -> Option<PendingMergeUpload> {
    match merge {
        Some(candidate) => if merge_replaces_spec(current, candidate) {
            Some(candidate)
        } else {
            current
        },
        None => current,
    }
}

impl CloudUploadState {
    /// No upload scheduled, running or pending.
    pub fn new() -> (state: CloudUploadState)
        ensures
            !state.scheduled,
            !state.in_flight,
            !state.pending,
            state.pending_merge is None,
    {
        CloudUploadState { scheduled: false, in_flight: false, pending: false, pending_merge: None }
    }

    /// Keeps an upload for when the running one finishes, with its merge if
    /// that merge replaces the one kept so far.
    pub fn queue(&mut self, merge: Option<PendingMergeUpload>)
        ensures
            final(self).pending,
            final(self).pending_merge == merge_after_queue(old(self).pending_merge, merge),
            final(self).scheduled == old(self).scheduled,
            final(self).in_flight == old(self).in_flight,
    {
        self.pending = true;
        if let Some(candidate) = merge {
            let replace = merge_replaces(self.pending_merge.as_ref(), &candidate);
            if replace {
                self.pending_merge = Some(candidate);
            }
        }
    }

    /// Forgets the pending upload and its merge.
    pub fn clear_pending(&mut self)
        ensures
            !final(self).pending,
            final(self).pending_merge is None,
            final(self).scheduled == old(self).scheduled,
            final(self).in_flight == old(self).in_flight,
    {
        self.pending = false;
        self.pending_merge = None;
    }

    /// Takes the pending upload: `None` when there is none, otherwise the
    /// merge it builds on (if any); nothing stays pending afterwards.
    pub fn take_pending(&mut self) -> (taken: Option<Option<PendingMergeUpload>>)
        ensures
            old(self).pending ==> taken == Some(old(self).pending_merge),
            !old(self).pending ==> taken is None && final(self).pending_merge
                == old(self).pending_merge,
            !final(self).pending,
            old(self).pending ==> final(self).pending_merge is None,
            final(self).scheduled == old(self).scheduled,
            final(self).in_flight == old(self).in_flight,
    {
        if !self.pending {
            return None;
        }
        self.pending = false;
        let merge = self.pending_merge.take();
        Some(merge)
    }

    /// An upload is asked for (a setting changed): skipped without cloud
    /// sync, queued behind a running upload, or debounced.
    pub fn schedule(&mut self, can_schedule: bool) -> (action: ScheduleAction)
        ensures
            !can_schedule ==> action == ScheduleAction::Skip && *final(self) == *old(self),
            can_schedule && old(self).in_flight ==> action == ScheduleAction::Queued
                && final(self).pending && final(self).pending_merge == old(self).pending_merge
                && final(self).scheduled == old(self).scheduled && final(self).in_flight,
            can_schedule && !old(self).in_flight && old(self).scheduled ==> action
                == ScheduleAction::AlreadyScheduled && *final(self) == *old(self),
            can_schedule && !old(self).in_flight && !old(self).scheduled ==> action
                == ScheduleAction::StartDebounce && final(self).scheduled && !final(self).in_flight
                && final(self).pending == old(self).pending && final(self).pending_merge
                == old(self).pending_merge,
    {
        if !can_schedule {
            return ScheduleAction::Skip;
        }
        if self.in_flight {
            self.queue(None);
            return ScheduleAction::Queued;
        }
        if self.scheduled {
            return ScheduleAction::AlreadyScheduled;
        }
        self.scheduled = true;
        ScheduleAction::StartDebounce
    }

    /// The debounce timer fired: an upload follows only if it is still scheduled.
    pub fn debounce_elapsed(&mut self) -> (upload: bool)
        ensures
            upload == old(self).scheduled,
            !final(self).scheduled,
            final(self).in_flight == old(self).in_flight,
            final(self).pending == old(self).pending,
            final(self).pending_merge == old(self).pending_merge,
    {
        if self.scheduled {
            self.scheduled = false;
            true
        } else {
            false
        }
    }

    /// An upload is about to begin, with `merge` to build on, while
    /// `active_profile` is the active profile. With cloud sync off nothing
    /// stays pending; behind a running upload it is queued; otherwise it
    /// starts, keeping the merge only if it belongs to the active profile.
    pub fn begin_upload(
        &mut self,
        cloud_sync_enabled: bool,
        merge: Option<PendingMergeUpload>,
        active_profile: &ProfileId,
    ) -> (start: UploadStart)
        ensures
            !final(self).scheduled,
            final(self).in_flight == old(self).in_flight,
            !cloud_sync_enabled ==> start is Disabled && !final(self).pending
                && final(self).pending_merge is None,
            cloud_sync_enabled && old(self).in_flight ==> start is Queued && final(self).pending
                && final(self).pending_merge == merge_after_queue(old(self).pending_merge, merge),
            cloud_sync_enabled && !old(self).in_flight ==> final(self).pending == old(self).pending
                && final(self).pending_merge == old(self).pending_merge && start == UploadStart::Start(
                match merge {
                    Some(m) => if m.profile_id@ == active_profile@ {
                        Some(m)
                    } else {
                        None
                    },
                    None => None,
                },
            ),
    {
        self.scheduled = false;
        if !cloud_sync_enabled {
            self.clear_pending();
            return UploadStart::Disabled;
        }
        if self.in_flight {
            self.queue(merge);
            return UploadStart::Queued;
        }
        let merge = match merge {
            Some(m) => if m.profile_id.same_as(active_profile) {
                Some(m)
            } else {
                None
            },
            None => None,
        };
        UploadStart::Start(merge)
    }

    /// The upload worker was started.
    pub fn mark_in_flight(&mut self)
        ensures
            final(self).in_flight,
            final(self).scheduled == old(self).scheduled,
            final(self).pending == old(self).pending,
            final(self).pending_merge == old(self).pending_merge,
    {
        self.in_flight = true;
    }

    /// The running upload finished (or its worker could not start).
    pub fn mark_finished(&mut self)
        ensures
            !final(self).in_flight,
            final(self).scheduled == old(self).scheduled,
            final(self).pending == old(self).pending,
            final(self).pending_merge == old(self).pending_merge,
    {
        self.in_flight = false;
    }

    /// All running and waiting upload work becomes stale (the profile changed).
    pub fn invalidate(&mut self)
        ensures
            !final(self).scheduled,
            !final(self).in_flight,
            !final(self).pending,
            final(self).pending_merge is None,
    {
        self.scheduled = false;
        self.in_flight = false;
        self.clear_pending();
    }
}

/// The merge kept for a profile is never replaced by an older one: a merge
/// of the same profile replaces it only with a later base revision, or the
/// same revision with more conflicts.
pub proof fn lemma_same_profile_merge_only_advances(
    current: PendingMergeUpload,
    candidate: PendingMergeUpload,
)
    requires
        candidate.profile_id@ == current.profile_id@,
    ensures
        merge_replaces_spec(Some(current), candidate) <==> (candidate.base_revision
            > current.base_revision || (candidate.base_revision == current.base_revision
            && candidate.conflict_count > current.conflict_count)),
        merge_after_queue(Some(current), Some(candidate)) matches Some(kept) ==> kept.base_revision
            >= current.base_revision && kept.base_revision >= candidate.base_revision,
{
}

} // verus!
