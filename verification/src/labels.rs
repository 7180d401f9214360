//! Small labels of the library and settings pages.
use vstd::prelude::*;

use crate::text::{decimal, decimal_string};

verus! {

/// "1 bookmark", or the count followed by "bookmarks".
pub open spec fn bookmark_count_phrase(count: nat) -> Seq<char> {
    if count == 1 {
        "1 bookmark"@
    } else {
        decimal(count) + " bookmarks"@
    }
}

/// The bookmark count as shown in the page header.
pub fn bookmark_count_label(count: usize) -> (label: String)
    ensures
        label@ == bookmark_count_phrase(count as nat),
{
    if count == 1 {
        return String::from_str("1 bookmark");
    }
    let mut label = decimal_string(count as u128);
    label.append(" bookmarks");
    label
}

/// The button of a search engine option: the selected one is active.
pub fn search_engine_button_label(selected: bool) -> (label: &'static str)
    ensures
        label@ == if selected { "Active"@ } else { "Select"@ },
{
    if selected { "Active" } else { "Select" }
}

/// The button of a new-tab destination option.
pub fn destination_button_label(selected: bool) -> (label: &'static str)
    ensures
        label@ == if selected { "Active"@ } else { "Select"@ },
{
    if selected { "Active" } else { "Select" }
}

/// The button of an update policy option.
pub fn policy_button_label(selected: bool) -> (label: &'static str)
    ensures
        label@ == if selected { "Active"@ } else { "Select"@ },
{
    if selected { "Active" } else { "Select" }
}

/// Whether browsing history is recorded.
#[derive(Clone, Copy, Debug, PartialEq, Eq, Structural)]
pub enum HistoryRecordingPolicy {
    Record,
    Pause,
}

/// The button of a history policy option: recording is the default.
pub fn history_policy_button_label(policy: HistoryRecordingPolicy, selected: bool) -> (label:
    &'static str)
    ensures
        label@ == if !selected {
            "Select"@
        } else if policy == HistoryRecordingPolicy::Record {
            "Default"@
        } else {
            "Active"@
        },
{
    match (policy, selected) {
        (HistoryRecordingPolicy::Record, true) => "Default",
        (_, true) => "Active",
        _ => "Select",
    }
}

/// The kinds of data that sync can carry.
#[derive(Clone, Copy, Debug, PartialEq, Eq, Structural)]
pub enum SyncObjectKind {
    Spaces,
    Tabs,
    Bookmarks,
    Notes,
    ReadingList,
    Profiles,
    SitePermissions,
    History,
    PluginSettings,
}

/// The label of a kind of synced data.
pub fn sync_object_kind_label(kind: SyncObjectKind) -> (label: &'static str)
    ensures
        label@ == match kind {
            SyncObjectKind::Spaces => "Spaces"@,
            SyncObjectKind::Tabs => "Tabs & pinned"@,
            SyncObjectKind::Bookmarks => "Bookmarks"@,
            SyncObjectKind::Notes => "Notes"@,
            SyncObjectKind::ReadingList => "Reading list"@,
            SyncObjectKind::Profiles => "Profiles"@,
            SyncObjectKind::SitePermissions => "Site permissions"@,
            SyncObjectKind::History => "History"@,
            SyncObjectKind::PluginSettings => "Plugins"@,
        },
{
    match kind {
        SyncObjectKind::Spaces => "Spaces",
        SyncObjectKind::Tabs => "Tabs & pinned",
        SyncObjectKind::Bookmarks => "Bookmarks",
        SyncObjectKind::Notes => "Notes",
        SyncObjectKind::ReadingList => "Reading list",
        SyncObjectKind::Profiles => "Profiles",
        SyncObjectKind::SitePermissions => "Site permissions",
        SyncObjectKind::History => "History",
        SyncObjectKind::PluginSettings => "Plugins",
    }
}

} // verus!
