//! The state of the Sync devices panel: which profile it shows, what it is
//! doing (loading the list, acting on one device), and the revoke
//! confirmation.
use vstd::prelude::*;

use crate::profiles::ProfileId;
use crate::text::{chars_equal, chars_of, owned};

verus! {

/// What the devices panel is doing.
#[derive(Clone, Debug)]
pub enum DeviceUiPhase {
    Idle,
    Loading,
    Ready,
    Acting { device_id: String },
    Error,
}

/// What the devices panel is doing, with the device as characters.
pub enum DevicePhaseView {
    Idle,
    Loading,
    Ready,
    Acting { device_id: Seq<char> },
    Error,
}

impl View for DeviceUiPhase {
    type V = DevicePhaseView;

    open spec fn view(&self) -> DevicePhaseView {
        match self {
            DeviceUiPhase::Idle => DevicePhaseView::Idle,
            DeviceUiPhase::Loading => DevicePhaseView::Loading,
            DeviceUiPhase::Ready => DevicePhaseView::Ready,
            DeviceUiPhase::Acting { device_id } => DevicePhaseView::Acting { device_id: device_id@ },
            DeviceUiPhase::Error => DevicePhaseView::Error,
        }
    }
}

/// The devices panel as a value.
pub struct DeviceUiView<D> {
    pub profile_id: Option<Seq<char>>,
    pub phase: DevicePhaseView,
    pub devices: Seq<D>,
    pub current_code: Option<Seq<char>>,
    pub revoke_confirmation: Option<Seq<char>>,
    pub error: Option<Seq<char>>,
}

/// The panel with nothing loaded and no profile.
pub open spec fn empty_device_ui<D>() -> DeviceUiView<D> {
    DeviceUiView {
        profile_id: None,
        phase: DevicePhaseView::Idle,
        devices: Seq::empty(),
        current_code: None,
        revoke_confirmation: None,
        error: None,
    }
}

/// Whether loading the device list may start: only from an idle panel
/// unless forced, and never while loading or acting.
pub open spec fn load_allowed<D>(v: DeviceUiView<D>, force: bool) -> bool {
    &&& (force || v.phase is Idle)
    &&& !(v.phase is Loading)
    &&& !(v.phase is Acting)
}

/// Whether an action on a device (approve, revoke) may start: only once
/// the list is shown or has failed.
pub open spec fn action_allowed<D>(v: DeviceUiView<D>) -> bool {
    v.phase is Ready || v.phase is Error
}

/// The state of the Sync devices panel, for device records of type `D`.
#[derive(Debug)]
pub struct SyncDeviceUiState<D> {
    profile_id: Option<ProfileId>,
    phase: DeviceUiPhase,
    devices: Vec<D>,
    current_code: Option<String>,
    revoke_confirmation: Option<String>,
    error: Option<String>,
}

/// The text of an optional string.
pub open spec fn opt_view(s: Option<String>) -> Option<Seq<char>> {
    match s {
        Some(s) => Some(s@),
        None => None,
    }
}

impl<D> View for SyncDeviceUiState<D> {
    type V = DeviceUiView<D>;

    closed spec fn view(&self) -> DeviceUiView<D> {
        DeviceUiView {
            profile_id: match self.profile_id {
                Some(p) => Some(p@),
                None => None,
            },
            phase: self.phase@,
            devices: self.devices@,
            current_code: opt_view(self.current_code),
            revoke_confirmation: opt_view(self.revoke_confirmation),
            error: opt_view(self.error),
        }
    }
}

impl<D> Default for SyncDeviceUiState<D> {
    fn default() -> (state: Self)
        ensures
            state@ == empty_device_ui::<D>(),
    {
        SyncDeviceUiState {
            profile_id: None,
            phase: DeviceUiPhase::Idle,
            devices: Vec::new(),
            current_code: None,
            revoke_confirmation: None,
            error: None,
        }
    }
}

/// Whether `a` holds the same text as `b`.
fn same_text(a: &str, b: &str) -> (same: bool)
    ensures
        same == (a@ == b@),
{
    chars_equal(&chars_of(a), &chars_of(b))
}

impl<D> SyncDeviceUiState<D> {
    /// The devices of the list shown.
    pub fn devices(&self) -> (devices: &[D])
        ensures
            devices@ == self@.devices,
    {
        self.devices.as_slice()
    }

    /// The verification code of this device, once the list is loaded.
    pub fn current_code(&self) -> (code: Option<&str>)
        ensures
            match code {
                Some(c) => self@.current_code == Some(c@),
                None => self@.current_code is None,
            },
    {
        match &self.current_code {
            Some(code) => Some(code.as_str()),
            None => None,
        }
    }

    /// The error shown in the panel.
    pub fn error(&self) -> (error: Option<&str>)
        ensures
            match error {
                Some(e) => self@.error == Some(e@),
                None => self@.error is None,
            },
    {
        match &self.error {
            Some(error) => Some(error.as_str()),
            None => None,
        }
    }

    /// Whether the device list is being loaded.
    pub fn is_loading(&self) -> (loading: bool)
        ensures
            loading == self@.phase is Loading,
    {
        match self.phase {
            DeviceUiPhase::Loading => true,
            _ => false,
        }
    }

    /// Whether an action on `device_id` is running.
    pub fn is_acting_on(&self, device_id: &str) -> (acting: bool)
        ensures
            acting == (self@.phase matches DevicePhaseView::Acting { device_id: active }
                && active == device_id@),
    {
        match &self.phase {
            DeviceUiPhase::Acting { device_id: active } => same_text(active.as_str(), device_id),
            _ => false,
        }
    }

    /// Whether revoking `device_id` waits for a second click.
    pub fn is_revoke_confirmation(&self, device_id: &str) -> (confirming: bool)
        ensures
            confirming == (self@.revoke_confirmation == Some(device_id@)),
    {
        match &self.revoke_confirmation {
            Some(pending) => same_text(pending.as_str(), device_id),
            None => false,
        }
    }

    /// Forgets everything: no profile, no list, nothing running.
    pub fn reset(&mut self)
        ensures
            final(self)@ == empty_device_ui::<D>(),
    {
        *self = Self::default();
    }

    /// The device list of `profile_id` arrived, with this device's code.
    pub fn set_ready(&mut self, profile_id: ProfileId, devices: Vec<D>, current_code: String)
        ensures
            final(self)@ == (DeviceUiView {
                profile_id: Some(profile_id@),
                phase: DevicePhaseView::Ready,
                devices: devices@,
                current_code: Some(current_code@),
                revoke_confirmation: None,
                error: None,
            }),
    {
        self.profile_id = Some(profile_id);
        self.phase = DeviceUiPhase::Ready;
        self.devices = devices;
        self.current_code = Some(current_code);
        self.revoke_confirmation = None;
        self.error = None;
    }

    /// Loading or acting for `profile_id` failed with `message`; the list
    /// shown so far stays.
    pub fn set_error(&mut self, profile_id: ProfileId, message: String)
        ensures
            final(self)@ == (DeviceUiView {
                profile_id: Some(profile_id@),
                phase: DevicePhaseView::Error,
                revoke_confirmation: None,
                error: Some(message@),
                ..old(self)@
            }),
    {
        self.profile_id = Some(profile_id);
        self.phase = DeviceUiPhase::Error;
        self.revoke_confirmation = None;
        self.error = Some(message);
    }

    /// Makes the panel show `profile_id`: kept as it is for the same
    /// profile, cleared for another one.
    pub fn prepare_profile(&mut self, profile_id: &ProfileId)
        ensures
            old(self)@.profile_id == Some(profile_id@) ==> final(self)@ == old(self)@,
            old(self)@.profile_id != Some(profile_id@) ==> final(self)@ == (DeviceUiView {
                profile_id: Some(profile_id@),
                ..empty_device_ui::<D>()
            }),
    {
        let same = match &self.profile_id {
            Some(current) => current.same_as(profile_id),
            None => false,
        };
        if !same {
            self.reset();
            self.profile_id = Some(profile_id.duplicate());
        }
    }

    /// Starts loading the list if that is allowed; says whether it started.
    pub fn begin_load(&mut self, force: bool) -> (started: bool)
        ensures
            started == load_allowed(old(self)@, force),
            started ==> final(self)@ == (DeviceUiView {
                phase: DevicePhaseView::Loading,
                error: None,
                ..old(self)@
            }),
            !started ==> final(self)@ == old(self)@,
    {
        let idle = match self.phase {
            DeviceUiPhase::Idle => true,
            _ => false,
        };
        if !force && !idle {
            return false;
        }
        let busy = match self.phase {
            DeviceUiPhase::Loading | DeviceUiPhase::Acting { .. } => true,
            _ => false,
        };
        if busy {
            return false;
        }
        self.phase = DeviceUiPhase::Loading;
        self.error = None;
        true
    }

    /// Starts an action on `device_id` if that is allowed; says whether it started.
    pub fn begin_action(&mut self, device_id: String) -> (started: bool)
        ensures
            started == action_allowed(old(self)@),
            started ==> final(self)@ == (DeviceUiView {
                phase: DevicePhaseView::Acting { device_id: device_id@ },
                revoke_confirmation: None,
                error: None,
                ..old(self)@
            }),
            !started ==> final(self)@ == old(self)@,
    {
        let allowed = match self.phase {
            DeviceUiPhase::Ready | DeviceUiPhase::Error => true,
            _ => false,
        };
        if !allowed {
            return false;
        }
        self.phase = DeviceUiPhase::Acting { device_id };
        self.revoke_confirmation = None;
        self.error = None;
        true
    }

    /// Revoking takes two clicks: the first on a device asks for
    /// confirmation and says no; a second on the same device says yes.
    pub fn request_revoke_confirmation(&mut self, device_id: &str) -> (confirmed: bool)
        ensures
            (final(self)@, confirmed) == after_revoke_request(old(self)@, device_id@),
    {
        let confirmed = match &self.revoke_confirmation {
            Some(pending) => same_text(pending.as_str(), device_id),
            None => false,
        };
        if confirmed {
            return true;
        }
        self.revoke_confirmation = Some(owned(device_id));
        false
    }
}

/// The effect of `request_revoke_confirmation` on the panel.
pub open spec fn after_revoke_request<D>(v: DeviceUiView<D>, device_id: Seq<char>) -> (DeviceUiView<D>, bool) {
    (DeviceUiView { revoke_confirmation: Some(device_id), ..v }, v.revoke_confirmation == Some(device_id))
}

/// A revoke never starts on the first click: asking twice for the same
/// device confirms the second time, while asking for another device in
/// between starts the confirmation over.
pub proof fn lemma_revoke_needs_two_requests<D>(v: DeviceUiView<D>, device_id: Seq<char>, other: Seq<char>)
    requires
        v.revoke_confirmation != Some(device_id),
        other != device_id,
    ensures
        !after_revoke_request(v, device_id).1,
        after_revoke_request(after_revoke_request(v, device_id).0, device_id).1,
        !after_revoke_request(after_revoke_request(after_revoke_request(v, device_id).0, other).0, device_id).1,
{
}

/// While an action runs, neither another action nor a load can start.
pub proof fn lemma_one_task_at_a_time<D>(v: DeviceUiView<D>, force: bool)
    requires
        v.phase is Acting || v.phase is Loading,
    ensures
        !load_allowed(v, force),
        v.phase is Acting ==> !action_allowed(v),
{
}

} // verus!
