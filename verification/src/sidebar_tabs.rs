//! Labels of the Sidebar & Tabs settings page.
use vstd::prelude::*;

use crate::spaces::ArchivePolicy;

verus! {

/// The archive policy options the page offers, in order.
pub fn archive_policy_options() -> (options: Vec<ArchivePolicy>)
    ensures
        options@ == seq![
            ArchivePolicy::Manual,
            ArchivePolicy::IdleDays(0),
            ArchivePolicy::IdleDays(7),
            ArchivePolicy::IdleDays(30),
        ],
{
    let options = vec![
        ArchivePolicy::Manual,
        ArchivePolicy::IdleDays(0),
        ArchivePolicy::IdleDays(7),
        ArchivePolicy::IdleDays(30),
    ];
    assert(options@ =~= seq![
        ArchivePolicy::Manual,
        ArchivePolicy::IdleDays(0),
        ArchivePolicy::IdleDays(7),
        ArchivePolicy::IdleDays(30),
    ]);
    options
}

/// An archive policy as the Sidebar & Tabs page words it.
pub fn archive_policy_label(policy: &ArchivePolicy) -> (label: &'static str)
    ensures
        label@ == match *policy {
            ArchivePolicy::Manual => "Manual"@,
            ArchivePolicy::IdleDays(0) => "Today"@,
            ArchivePolicy::IdleDays(7) => "7 days"@,
            ArchivePolicy::IdleDays(30) => "30 days"@,
            ArchivePolicy::IdleDays(_) => "Custom"@,
        },
{
    match policy {
        ArchivePolicy::Manual => "Manual",
        ArchivePolicy::IdleDays(0) => "Today",
        ArchivePolicy::IdleDays(7) => "7 days",
        ArchivePolicy::IdleDays(30) => "30 days",
        ArchivePolicy::IdleDays(_) => "Custom",
    }
}

} // verus!
