//! Profiles as the shell labels them.
use vstd::prelude::*;

use crate::downloads::{DownloadDestination, DownloadPolicy};
use crate::text::owned;

verus! {

/// The identifier of a profile, as its text.
#[derive(Clone, Debug, PartialEq, Eq, Hash)]
pub struct ProfileId {
    pub id: String,
}

impl View for ProfileId {
    type V = Seq<char>;

    open spec fn view(&self) -> Seq<char> {
        self.id@
    }
}

impl ProfileId {
    /// The profile with identifier `id`.
    pub fn new(id: &str) -> (profile_id: ProfileId)
        ensures
            profile_id@ == id@,
    {
        ProfileId { id: owned(id) }
    }

    /// Whether both identifiers name the same profile.
    pub fn same_as(&self, other: &ProfileId) -> (same: bool)
        ensures
            same == (self@ == other@),
    {
        self.id == other.id
    }

    /// A copy of this identifier.
    pub fn duplicate(&self) -> (copy: ProfileId)
        ensures
            copy@ == self@,
    {
        ProfileId { id: owned(self.id.as_str()) }
    }
}

/// Whether a profile keeps its data (standard) or forgets it (private).
#[derive(Clone, Copy, Debug, PartialEq, Eq, Structural)]
pub enum ProfileKind {
    Standard,
    Private,
}

/// What the shell shows of a profile.
#[derive(Clone, Debug)]
pub struct ProfileSummary {
    pub id: ProfileId,
    pub name: String,
    pub kind: ProfileKind,
}

/// The label of a profile kind.
pub fn profile_kind_label(kind: &ProfileKind) -> (label: &'static str)
    ensures
        label@ == match kind {
            ProfileKind::Standard => "Standard"@,
            ProfileKind::Private => "Private"@,
        },
{
    match kind {
        ProfileKind::Standard => "Standard",
        ProfileKind::Private => "Private",
    }
}

/// Only standard profiles offer sync controls; private profiles never sync.
pub fn profile_allows_sync_controls(profile_kind: &ProfileKind) -> (allows: bool)
    ensures
        allows == (*profile_kind == ProfileKind::Standard),
{
    match profile_kind {
        ProfileKind::Standard => true,
        ProfileKind::Private => false,
    }
}

/// The index of the first profile in `profiles` with identifier `id`.
pub open spec fn first_profile_index(profiles: Seq<ProfileSummary>, id: Seq<char>) -> Option<nat>
    decreases profiles.len(),
{
    if profiles.len() == 0 {
        None
    } else if profiles[0].id@ == id {
        Some(0)
    } else {
        match first_profile_index(profiles.drop_first(), id) {
            Some(k) => Some(k + 1),
            None => None,
        }
    }
}

proof fn lemma_first_profile_index(profiles: Seq<ProfileSummary>, id: Seq<char>)
    ensures
        first_profile_index(profiles, id) matches Some(k) ==> k < profiles.len()
            && profiles[k as int].id@ == id && forall|j: int| 0 <= j < k ==> profiles[j].id@ != id,
        first_profile_index(profiles, id) is None ==> forall|j: int|
            0 <= j < profiles.len() ==> profiles[j].id@ != id,
    decreases profiles.len(),
{
    if profiles.len() > 0 && profiles[0].id@ != id {
        lemma_first_profile_index(profiles.drop_first(), id);
        assert forall|j: int| 1 <= j < profiles.len() implies profiles[j] == profiles.drop_first()[j
            - 1] by {}
    }
}

/// The name of the first profile in `profiles` with identifier `id`.
pub open spec fn profile_name_for(profiles: Seq<ProfileSummary>, id: Seq<char>) -> Option<
    Seq<char>,
> {
    match first_profile_index(profiles, id) {
        Some(k) => Some(profiles[k as int].name@),
        None => None,
    }
}

/// The position of the first profile in `profiles` with identifier `id`.
pub fn find_profile(profiles: &[ProfileSummary], id: &ProfileId) -> (index: Option<usize>)
    ensures
        match index {
            Some(k) => first_profile_index(profiles@, id@) == Some(k as nat),
            None => first_profile_index(profiles@, id@) is None,
        },
        index matches Some(k) ==> k < profiles@.len(),
{
    proof {
        lemma_first_profile_index(profiles@, id@);
    }
    let mut i: usize = 0;
    while i < profiles.len()
        invariant
            i <= profiles@.len(),
            forall|j: int| 0 <= j < i ==> profiles@[j].id@ != id@,
            first_profile_index(profiles@, id@) matches Some(k) ==> k < profiles@.len()
                && profiles@[k as int].id@ == id@ && forall|j: int|
                0 <= j < k ==> profiles@[j].id@ != id@,
            first_profile_index(profiles@, id@) is None ==> forall|j: int|
                0 <= j < profiles@.len() ==> profiles@[j].id@ != id@,
        decreases profiles@.len() - i,
    {
        if profiles[i].id.same_as(id) {
            return Some(i);
        }
        i = i + 1;
    }
    None
}

/// The profile line of a tab: "Profile: " and the profile's name, or its
/// identifier when no profile has it.
pub fn tab_profile_label(profile_id: &ProfileId, profiles: &[ProfileSummary]) -> (label: String)
    ensures
        label@ == "Profile: "@ + match profile_name_for(profiles@, profile_id@) {
            Some(name) => name,
            None => profile_id@,
        },
{
    let mut label = String::from_str("Profile: ");
    match find_profile(profiles, profile_id) {
        Some(k) => label.append(profiles[k].name.as_str()),
        None => label.append(profile_id.id.as_str()),
    }
    label
}

/// The name of a profile, or its identifier when no profile has it.
pub fn profile_name(profile_id: &ProfileId, profiles: &[ProfileSummary]) -> (name: String)
    ensures
        name@ == match profile_name_for(profiles@, profile_id@) {
            Some(name) => name,
            None => profile_id@,
        },
{
    match find_profile(profiles, profile_id) {
        Some(k) => owned(profiles[k].name.as_str()),
        None => owned(profile_id.id.as_str()),
    }
}

/// The download policy of a profile as the Profiles page words it.
pub open spec fn profile_download_phrase(policy: DownloadPolicy) -> Seq<char> {
    match policy.destination {
        DownloadDestination::AskEveryTime => "Ask every time"@,
        DownloadDestination::FixedDirectory(path) => path@,
    }
}

/// The download policy of a profile as the Profiles page words it.
pub fn download_policy_label(policy: &DownloadPolicy) -> (label: String)
    ensures
        label@ == profile_download_phrase(*policy),
{
    match &policy.destination {
        DownloadDestination::AskEveryTime => String::from_str("Ask every time"),
        DownloadDestination::FixedDirectory(path) => owned(path.as_str()),
    }
}

/// The detail line of a profile: its kind, download policy and sync policy.
pub fn profile_detail_label(kind: &ProfileKind, policy: &DownloadPolicy, sync_policy_label: &str) -> (label: String)
    ensures
        label@ == match *kind {
            ProfileKind::Standard => "Standard"@,
            ProfileKind::Private => "Private"@,
        } + " - "@ + profile_download_phrase(*policy) + " - "@ + sync_policy_label@,
{
    let mut label = owned(profile_kind_label(kind));
    label.append(" - ");
    let download = download_policy_label(policy);
    label.append(download.as_str());
    label.append(" - ");
    label.append(sync_policy_label);
    label
}

} // verus!
