//! Labels of the Spaces settings page.
use vstd::prelude::*;

use crate::profiles::{ProfileId, ProfileSummary, find_profile, profile_name_for};
use crate::text::{append_chars, decimal, decimal_chars, decimal_string, hex_upper, hex_upper_chars, pad_start, pad_start_chars};
use crate::time::{Timestamp, DAY_SECS, HOUR_SECS, whole_secs_between, whole_secs_between_exec};

verus! {

/// When the tabs of a space are archived.
#[derive(Clone, Copy, Debug, PartialEq, Eq, Structural)]
pub enum ArchivePolicy {
    /// Only when the user archives them.
    Manual,
    /// After the given number of idle days.
    IdleDays(u32),
}

/// How long until a trashed space is purged, as seen at `now`: under an
/// hour, or the remaining whole seconds rounded up to days.
pub open spec fn time_until_purge_phrase(remaining: nat) -> Seq<char> {
    if remaining < HOUR_SECS {
        "under 1 hour"@
    } else {
        let days = (remaining + (DAY_SECS - 1)) / (DAY_SECS as int);
        if days == 1 {
            "1 day"@
        } else {
            decimal(days as nat) + " days"@
        }
    }
}

/// How long until a trashed space due at `purge_at` is purged, as seen at `now`.
pub fn time_until_purge(purge_at: Timestamp, now: Timestamp) -> (label: String)
    ensures
        label@ == time_until_purge_phrase(whole_secs_between(now, purge_at)),
{
    let remaining = whole_secs_between_exec(now, purge_at);
    if remaining < HOUR_SECS {
        return String::from_str("under 1 hour");
    }
    let days = remaining / DAY_SECS + if remaining % DAY_SECS == 0 { 0 } else { 1 };
    assert(days == (remaining + (DAY_SECS - 1)) / (DAY_SECS as int)) by (nonlinear_arith)
        requires
            days == remaining / DAY_SECS + if remaining % DAY_SECS == 0 { 0int } else { 1int },
            DAY_SECS == 86400,
    ;
    if days == 1 {
        return String::from_str("1 day");
    }
    let mut label = String::new();
    append_chars(&mut label, &decimal_chars(days));
    label.append(" days");
    label
}

/// The retention line of a trashed space: eligible for purge once it has
/// expired, else how long until the purge.
pub open spec fn trash_retention_phrase(expired: bool, purge_at: Timestamp, now: Timestamp) -> Seq<
    char,
> {
    if expired {
        "eligible for permanent purge"@
    } else {
        "purges in "@ + time_until_purge_phrase(whole_secs_between(now, purge_at))
    }
}

/// The retention line of a trashed space that is due at `purge_at`;
/// `expired` is whether its retention has run out at `now`.
pub fn trash_retention_label(expired: bool, purge_at: Timestamp, now: Timestamp) -> (label: String)
    ensures
        label@ == trash_retention_phrase(expired, purge_at, now),
{
    if expired {
        return String::from_str("eligible for permanent purge");
    }
    let mut label = String::from_str("purges in ");
    let remaining = time_until_purge(purge_at, now);
    label.append(remaining.as_str());
    label
}

/// The detail line of a trashed space: its open and archived tab counts
/// and its retention line.
pub fn trashed_space_detail_label(
    open_tabs: usize,
    archived_tabs: usize,
    expired: bool,
    purge_at: Timestamp,
    now: Timestamp,
) -> (label: String)
    ensures
        label@ == decimal(open_tabs as nat) + " open tabs - "@ + decimal(archived_tabs as nat)
            + " archived tabs - "@ + trash_retention_phrase(expired, purge_at, now),
{
    let mut label = decimal_string(open_tabs as u128);
    label.append(" open tabs - ");
    let archived = decimal_string(archived_tabs as u128);
    label.append(archived.as_str());
    label.append(" archived tabs - ");
    let retention = trash_retention_label(expired, purge_at, now);
    label.append(retention.as_str());
    label
}

/// The accent colour `#RRGGBB`, upper-case and zero-padded to six digits.
pub open spec fn accent_phrase(accent_hex: nat) -> Seq<char> {
    seq!['#'] + pad_start(hex_upper(accent_hex), '0', 6)
}

/// The accent colour of a space as `#RRGGBB`.
pub fn accent_label(accent_hex: u32) -> (label: String)
    ensures
        label@ == accent_phrase(accent_hex as nat),
{
    let digits = hex_upper_chars(accent_hex as u64);
    let padded = pad_start_chars(&digits, '0', 6);
    let chars = vec!['#'];
    let mut label = String::new();
    append_chars(&mut label, &chars);
    append_chars(&mut label, &padded);
    assert(chars@ =~= seq!['#']);
    label
}

/// The archive policy of a space, as the Spaces page words it.
pub open spec fn archive_policy_phrase(policy: ArchivePolicy) -> Seq<char> {
    match policy {
        ArchivePolicy::Manual => "Manual archive"@,
        ArchivePolicy::IdleDays(0) => "Archive today"@,
        ArchivePolicy::IdleDays(1) => "Archive after 1 day"@,
        ArchivePolicy::IdleDays(7) => "Archive after 7 days"@,
        ArchivePolicy::IdleDays(30) => "Archive after 30 days"@,
        ArchivePolicy::IdleDays(_) => "Custom archive policy"@,
    }
}

/// The archive policy of a space, as the Spaces page words it.
pub fn archive_policy_label(policy: &ArchivePolicy) -> (label: &'static str)
    ensures
        label@ == archive_policy_phrase(*policy),
{
    match policy {
        ArchivePolicy::Manual => "Manual archive",
        ArchivePolicy::IdleDays(0) => "Archive today",
        ArchivePolicy::IdleDays(1) => "Archive after 1 day",
        ArchivePolicy::IdleDays(7) => "Archive after 7 days",
        ArchivePolicy::IdleDays(30) => "Archive after 30 days",
        ArchivePolicy::IdleDays(_) => "Custom archive policy",
    }
}

/// The default profile line of a space: its name, or that it is unavailable.
pub open spec fn default_profile_phrase(profiles: Seq<ProfileSummary>, id: Seq<char>) -> Seq<char> {
    match profile_name_for(profiles, id) {
        Some(name) => "Default profile: "@ + name,
        None => "Default profile unavailable"@,
    }
}

/// The default profile line of a space.
pub fn default_profile_label(default_profile_id: &ProfileId, profiles: &[ProfileSummary]) -> (label:
    String)
    ensures
        label@ == default_profile_phrase(profiles@, default_profile_id@),
{
    match find_profile(profiles, default_profile_id) {
        Some(k) => {
            let mut label = String::from_str("Default profile: ");
            label.append(profiles[k].name.as_str());
            label
        },
        None => String::from_str("Default profile unavailable"),
    }
}

/// The detail line of a space: accent, archive policy and default profile.
pub fn space_detail_label(
    accent_hex: u32,
    policy: &ArchivePolicy,
    default_profile_id: &ProfileId,
    profiles: &[ProfileSummary],
) -> (label: String)
    ensures
        label@ == accent_phrase(accent_hex as nat) + " - "@ + archive_policy_phrase(*policy)
            + " - "@ + default_profile_phrase(profiles@, default_profile_id@),
{
    let mut label = accent_label(accent_hex);
    label.append(" - ");
    label.append(archive_policy_label(policy));
    label.append(" - ");
    let profile = default_profile_label(default_profile_id, profiles);
    label.append(profile.as_str());
    label
}

} // verus!
