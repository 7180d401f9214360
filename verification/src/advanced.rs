//! Labels of the Advanced settings page.
use vstd::prelude::*;

use crate::spaces::ArchivePolicy;

verus! {

/// The number of policies the Advanced page lists.
pub fn advanced_policy_count() -> (count: usize)
    ensures
        count == 8,
{
    8
}

/// The archive policy of the active space, as the Advanced page words it.
pub fn archive_policy_label(policy: &ArchivePolicy) -> (label: &'static str)
    ensures
        label@ == match *policy {
            ArchivePolicy::Manual => "Manual"@,
            ArchivePolicy::IdleDays(0) => "Today"@,
            ArchivePolicy::IdleDays(1) => "1 day"@,
            ArchivePolicy::IdleDays(7) => "7 days"@,
            ArchivePolicy::IdleDays(30) => "30 days"@,
            ArchivePolicy::IdleDays(_) => "Custom"@,
        },
{
    match policy {
        ArchivePolicy::Manual => "Manual",
        ArchivePolicy::IdleDays(0) => "Today",
        ArchivePolicy::IdleDays(1) => "1 day",
        ArchivePolicy::IdleDays(7) => "7 days",
        ArchivePolicy::IdleDays(30) => "30 days",
        ArchivePolicy::IdleDays(_) => "Custom",
    }
}

/// The number of audit events: plugin events and site permission events together.
pub fn audit_event_count(plugin_audit_events: usize, site_permission_audit_events: usize) -> (count:
    usize)
    requires
        plugin_audit_events + site_permission_audit_events <= usize::MAX,
    ensures
        count == plugin_audit_events + site_permission_audit_events,
{
    plugin_audit_events + site_permission_audit_events
}

} // verus!
