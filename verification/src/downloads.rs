//! Labels of the Downloads page: states, sizes, destinations and policies.
use vstd::prelude::*;

use crate::text::{append_chars, decimal, decimal_chars, digit, digit_char, owned};

verus! {

/// Where downloads of a profile are saved.
#[derive(Clone, Debug, PartialEq, Eq)]
pub enum DownloadDestination {
    AskEveryTime,
    FixedDirectory(String),
}

/// The download policy of a profile.
#[derive(Clone, Debug, PartialEq, Eq)]
pub struct DownloadPolicy {
    pub destination: DownloadDestination,
}

/// The progress of one download.
#[derive(Clone, Copy, Debug, PartialEq, Eq, Structural)]
pub enum DownloadState {
    InProgress,
    Paused,
    Completed,
    Cancelled,
    Failed,
}

/// Whether a download needs an extra prompt before it is opened.
#[derive(Clone, Copy, Debug, PartialEq, Eq, Structural)]
pub enum DownloadSecurity {
    Standard,
    DangerousExtension,
}

/// The label of a download state.
pub fn download_state_label(state: &DownloadState) -> (label: &'static str)
    ensures
        label@ == match state {
            DownloadState::InProgress => "In progress"@,
            DownloadState::Paused => "Paused"@,
            DownloadState::Completed => "Complete"@,
            DownloadState::Cancelled => "Cancelled"@,
            DownloadState::Failed => "Failed"@,
        },
{
    match state {
        DownloadState::InProgress => "In progress",
        DownloadState::Paused => "Paused",
        DownloadState::Completed => "Complete",
        DownloadState::Cancelled => "Cancelled",
        DownloadState::Failed => "Failed",
    }
}

/// The label of a download's security check.
pub fn download_security_label(security: &DownloadSecurity) -> (label: &'static str)
    ensures
        label@ == match security {
            DownloadSecurity::Standard => "Standard"@,
            DownloadSecurity::DangerousExtension => "Extension prompt required"@,
        },
{
    match security {
        DownloadSecurity::Standard => "Standard",
        DownloadSecurity::DangerousExtension => "Extension prompt required",
    }
}

/// The label of a destination: the folder itself, or "Ask before saving".
pub open spec fn destination_phrase(destination: DownloadDestination) -> Seq<char> {
    match destination {
        DownloadDestination::AskEveryTime => "Ask before saving"@,
        DownloadDestination::FixedDirectory(path) => path@,
    }
}

/// The label of a destination.
pub fn download_destination_label(destination: &DownloadDestination) -> (label: String)
    ensures
        label@ == destination_phrase(*destination),
{
    match destination {
        DownloadDestination::AskEveryTime => String::from_str("Ask before saving"),
        DownloadDestination::FixedDirectory(path) => owned(path.as_str()),
    }
}

/// The policy line of the Downloads page: "Profile path: " and the destination.
pub fn download_policy_label(policy: &DownloadPolicy) -> (label: String)
    ensures
        label@ == "Profile path: "@ + destination_phrase(policy.destination),
{
    let mut label = String::from_str("Profile path: ");
    let destination = download_destination_label(&policy.destination);
    label.append(destination.as_str());
    label
}

/// Where a download went: its file when known, else its destination.
pub fn download_entry_location_label(
    target_file_path: Option<&str>,
    destination: &DownloadDestination,
) -> (label: String)
    ensures
        label@ == match target_file_path {
            Some(path) => path@,
            None => destination_phrase(*destination),
        },
{
    match target_file_path {
        Some(path) => owned(path),
        None => download_destination_label(destination),
    }
}

/// The short name of a policy's destination.
pub fn download_destination_short_label(policy: &DownloadPolicy) -> (label: &'static str)
    ensures
        label@ == match policy.destination {
            DownloadDestination::AskEveryTime => "Ask Every Time"@,
            DownloadDestination::FixedDirectory(_) => "Fixed Folder"@,
        },
{
    match &policy.destination {
        DownloadDestination::AskEveryTime => "Ask Every Time",
        DownloadDestination::FixedDirectory(_) => "Fixed Folder",
    }
}

/// What the user can do with a download from its row.
#[derive(Clone, Copy, Debug, PartialEq, Eq, Structural)]
pub enum DownloadAction {
    Pause,
    Resume,
    Cancel,
    Retry,
    OpenFile,
    RevealFile,
}

/// The actions a download row offers, in order: a running download can be
/// paused or cancelled, a paused one resumed or cancelled, a cancelled or
/// failed one retried, and a completed one whose file is known opened or
/// revealed.
pub open spec fn download_actions_spec(state: DownloadState, has_target_file: bool) -> Seq<
    DownloadAction,
> {
    match state {
        DownloadState::InProgress => seq![DownloadAction::Pause, DownloadAction::Cancel],
        DownloadState::Paused => seq![DownloadAction::Resume, DownloadAction::Cancel],
        DownloadState::Cancelled | DownloadState::Failed => seq![DownloadAction::Retry],
        DownloadState::Completed => if has_target_file {
            seq![DownloadAction::OpenFile, DownloadAction::RevealFile]
        } else {
            seq![]
        },
    }
}

/// The actions a download row offers for a download in `state`;
/// `has_target_file` is whether the file it saved to is known.
pub fn download_actions(state: &DownloadState, has_target_file: bool) -> (actions: Vec<DownloadAction>)
    ensures
        actions@ == download_actions_spec(*state, has_target_file),
{
    let mut actions = Vec::new();
    match state {
        DownloadState::InProgress => {
            actions.push(DownloadAction::Pause);
            actions.push(DownloadAction::Cancel);
        },
        DownloadState::Paused => {
            actions.push(DownloadAction::Resume);
            actions.push(DownloadAction::Cancel);
        },
        DownloadState::Cancelled | DownloadState::Failed => {
            actions.push(DownloadAction::Retry);
        },
        DownloadState::Completed => {
            if has_target_file {
                actions.push(DownloadAction::OpenFile);
                actions.push(DownloadAction::RevealFile);
            }
        },
    }
    assert(actions@ =~= download_actions_spec(*state, has_target_file));
    actions
}

/// The tooltip of a download action button.
pub fn download_action_tooltip(action: DownloadAction) -> (tooltip: &'static str)
    ensures
        tooltip@ == match action {
            DownloadAction::Pause => "Pause Download"@,
            DownloadAction::Resume => "Resume Download"@,
            DownloadAction::Cancel => "Cancel Download"@,
            DownloadAction::Retry => "Retry Download"@,
            DownloadAction::OpenFile => "Open File"@,
            DownloadAction::RevealFile => "Reveal in Finder"@,
        },
{
    match action {
        DownloadAction::Pause => "Pause Download",
        DownloadAction::Resume => "Resume Download",
        DownloadAction::Cancel => "Cancel Download",
        DownloadAction::Retry => "Retry Download",
        DownloadAction::OpenFile => "Open File",
        DownloadAction::RevealFile => "Reveal in Finder",
    }
}

/// The button of a download policy option.
pub fn download_policy_button_label(selected: bool) -> (label: &'static str)
    ensures
        label@ == if selected { "Active"@ } else { "Select"@ },
{
    if selected { "Active" } else { "Select" }
}

// ---------------------------------------------------------------------------
// Byte sizes
// ---------------------------------------------------------------------------

/// Bytes in a kibibyte, mebibyte and gibibyte.
pub const KIB: u64 = 1024;
pub const MIB: u64 = 1024 * 1024;
pub const GIB: u64 = 1024 * 1024 * 1024;

/// Two to the power `n`.
pub open spec fn two_pow(n: nat) -> nat
    decreases n,
{
    if n == 0 {
        1
    } else {
        2 * two_pow((n - 1) as nat)
    }
}

/// The number of binary digits of `n` (zero for zero).
pub open spec fn bit_length(n: nat) -> nat
    decreases n,
{
    if n == 0 {
        0
    } else {
        1 + bit_length(n / 2)
    }
}

/// `n / m` rounded to the nearest integer, a tie going to the even one.
pub open spec fn div_round_half_even(n: nat, m: nat) -> nat
    recommends
        m > 0,
{
    let q = n / m;
    let r = n % m;
    if 2 * r > m || (2 * r == m && q % 2 == 1) {
        q + 1
    } else {
        q
    }
}

/// The value of `n as f64`: `n` rounded to 53 significant bits, a tie going
/// to the even neighbour.
pub open spec fn as_f64_value(n: nat) -> nat {
    if bit_length(n) <= 53 {
        n
    } else {
        let step = two_pow((bit_length(n) - 53) as nat);
        div_round_half_even(n, step) * step
    }
}

/// `n / 2^shift` in tenths, rounded as `{:.1}` rounds the exact quotient:
/// to the nearest tenth, a tie going to the even one.
pub open spec fn tenths_of(n: nat, shift: nat) -> nat {
    div_round_half_even(10 * as_f64_value(n), two_pow(shift))
}

/// A tenths count written with one decimal place.
pub open spec fn one_decimal(tenths: nat) -> Seq<char> {
    decimal(tenths / 10) + seq!['.', digit_char(tenths % 10)]
}

/// A byte count as the Downloads page shows it: whole bytes below a
/// kibibyte, otherwise kilo-, mega- or gigabytes (of 1024) with one decimal,
/// computed as `bytes as f64` divided by the unit and formatted with `{:.1}`.
pub open spec fn format_bytes_spec(bytes: nat) -> Seq<char> {
    if bytes >= GIB {
        one_decimal(tenths_of(bytes, 30)) + " GB"@
    } else if bytes >= MIB {
        one_decimal(tenths_of(bytes, 20)) + " MB"@
    } else if bytes >= KIB {
        one_decimal(tenths_of(bytes, 10)) + " KB"@
    } else {
        decimal(bytes) + " B"@
    }
}

/// `n / m` rounded to the nearest integer, a tie going to the even one.
fn div_round_half_even_exec(n: u128, m: u128) -> (out: u128)
    requires
        m > 0,
        n / m < u128::MAX,
    ensures
        out == div_round_half_even(n as nat, m as nat),
{
    let q = n / m;
    let r = n % m;
    if r > m - r || (r == m - r && q % 2 == 1) {
        q + 1
    } else {
        q
    }
}

proof fn lemma_two_pow_positive(n: nat)
    ensures
        two_pow(n) >= 1,
    decreases n,
{
    if n > 0 {
        lemma_two_pow_positive((n - 1) as nat);
    }
}

proof fn lemma_two_pow_bounds(n: nat)
    ensures
        two_pow(n) >= 1,
        n <= 64 ==> two_pow(n) <= 0x1_0000_0000_0000_0000,
{
    lemma_two_pow_positive(n);
    if n <= 64 {
        lemma_two_pow_64();
        if n < 64 {
            lemma_two_pow_monotone(n, 64);
        }
    }
}

/// `2^64`, the first power of two beyond `u64`.
proof fn lemma_two_pow_64()
    ensures
        two_pow(64) == 0x1_0000_0000_0000_0000,
{
    reveal_with_fuel(two_pow, 65);
}

/// A number below `2^64` has at most 64 binary digits.
proof fn lemma_bit_length_u64(n: nat)
    requires
        n < 0x1_0000_0000_0000_0000,
    ensures
        bit_length(n) <= 64,
{
    lemma_bit_length_bound(n);
    lemma_two_pow_64();
    if n > 0 && bit_length(n) > 64 {
        if bit_length(n) - 1 > 64 {
            lemma_two_pow_monotone(64, (bit_length(n) - 1) as nat);
        }
    }
}

proof fn lemma_bit_length_bound(n: nat)
    ensures
        n < two_pow(bit_length(n)),
        n > 0 ==> two_pow((bit_length(n) - 1) as nat) <= n,
    decreases n,
{
    if n > 0 {
        lemma_bit_length_bound(n / 2);
    }
}

/// `2^n`.
fn two_pow_exec(n: u32) -> (out: u128)
    requires
        n <= 64,
    ensures
        out == two_pow(n as nat),
{
    let mut out: u128 = 1;
    let mut i: u32 = 0;
    while i < n
        invariant
            i <= n <= 64,
            out == two_pow(i as nat),
        decreases n - i,
    {
        proof {
            lemma_two_pow_bounds(i as nat);
        }
        out = out * 2;
        i = i + 1;
    }
    out
}

/// The number of binary digits of `n`.
fn bit_length_exec(n: u64) -> (out: u32)
    ensures
        out == bit_length(n as nat),
        out <= 64,
{
    let mut rest = n;
    let mut count: u32 = 0;
    proof {
        lemma_bit_length_u64(n as nat);
    }
    while rest > 0
        invariant
            bit_length(n as nat) == count + bit_length(rest as nat),
            bit_length(n as nat) <= 64,
        decreases rest,
    {
        rest = rest / 2;
        count = count + 1;
    }
    count
}

proof fn lemma_two_pow_monotone(a: nat, b: nat)
    requires
        a < b,
    ensures
        two_pow(a) < two_pow(b),
    decreases b,
{
    lemma_two_pow_positive(a);
    if b > a + 1 {
        lemma_two_pow_monotone(a, (b - 1) as nat);
    }
    assert(two_pow(b) == 2 * two_pow((b - 1) as nat));
}

/// The value of `n as f64`, as an integer.
fn as_f64_value_exec(n: u64) -> (out: u128)
    ensures
        out == as_f64_value(n as nat),
        out <= 0x1_0000_0000_0000_0000,
{
    let bits = bit_length_exec(n);
    if bits <= 53 {
        return n as u128;
    }
    let step = two_pow_exec(bits - 53);
    proof {
        lemma_two_pow_bounds((bits - 53) as nat);
        lemma_two_pow_monotone((bits - 53) as nat, 12);
        lemma_bit_length_bound(n as nat);
        lemma_rounded_bound(n as nat, step as nat, bits as nat);
    }
    let rounded = div_round_half_even_exec(n as u128, step);
    rounded * step
}

proof fn lemma_rounded_bound(n: nat, step: nat, bits: nat)
    requires
        bits == bit_length(n),
        53 < bits <= 64,
        step == two_pow((bits - 53) as nat),
        n < two_pow(bits),
    ensures
        step > 0,
        div_round_half_even(n, step) * step <= 0x1_0000_0000_0000_0000,
{
    lemma_two_pow_bounds((bits - 53) as nat);
    lemma_two_pow_bounds(bits);
    lemma_two_pow_split(bits, (bits - 53) as nat);
    let q = n / step;
    let big = two_pow(53);
    assert(two_pow(bits) == big * step);
    assert(q < big) by (nonlinear_arith)
        requires
            n < big * step,
            q == n / step,
            step > 0,
    ;
    assert(div_round_half_even(n, step) <= big);
    assert(div_round_half_even(n, step) * step <= big * step) by (nonlinear_arith)
        requires
            div_round_half_even(n, step) <= big,
            step > 0,
    ;
    assert(two_pow(bits) <= two_pow(64)) by {
        if bits < 64 {
            lemma_two_pow_monotone(bits, 64);
        }
    }
    lemma_two_pow_bounds(64);
}

proof fn lemma_two_pow_split(a: nat, b: nat)
    requires
        b <= a,
    ensures
        two_pow(a) == two_pow((a - b) as nat) * two_pow(b),
    decreases a,
{
    if a > b {
        lemma_two_pow_split((a - 1) as nat, b);
        let x = two_pow((a - 1 - b) as nat);
        let y = two_pow(b);
        assert(two_pow(a) == 2 * two_pow((a - 1) as nat));
        assert(((a - b) as nat - 1) as nat == (a - 1 - b) as nat);
        assert(two_pow((a - b) as nat) == 2 * x);
        assert(two_pow((a - 1) as nat) == x * y);
        assert(2 * (x * y) == (2 * x) * y) by (nonlinear_arith);
    } else {
        assert(two_pow(0) == 1);
        assert((a - b) as nat == 0);
        assert(1 * two_pow(b) == two_pow(b));
    }
}

/// A tenths count written with one decimal place, followed by `unit`.
fn one_decimal_with_unit(tenths: u128, unit: &str) -> (label: String)
    ensures
        label@ == one_decimal(tenths as nat) + unit@,
{
    let mut chars = decimal_chars(tenths / 10);
    chars.push('.');
    chars.push(digit(tenths % 10));
    let mut label = String::new();
    append_chars(&mut label, &chars);
    assert(chars@ =~= one_decimal(tenths as nat));
    label.append(unit);
    label
}

/// A byte count as the Downloads page shows it.
pub fn format_bytes(bytes: u64) -> (label: String)
    ensures
        label@ == format_bytes_spec(bytes as nat),
{
    if bytes < KIB {
        let mut label = String::new();
        append_chars(&mut label, &decimal_chars(bytes as u128));
        label.append(" B");
        return label;
    }
    let shift: u32 = if bytes >= GIB {
        30
    } else if bytes >= MIB {
        20
    } else {
        10
    };
    let value = as_f64_value_exec(bytes);
    let unit_size = two_pow_exec(shift);
    proof {
        lemma_two_pow_bounds(shift as nat);
    }
    let tenths = div_round_half_even_exec(value * 10, unit_size);
    if bytes >= GIB {
        one_decimal_with_unit(tenths, " GB")
    } else if bytes >= MIB {
        one_decimal_with_unit(tenths, " MB")
    } else {
        one_decimal_with_unit(tenths, " KB")
    }
}

/// The size of a download: received bytes, and the total when it is known.
pub fn download_size_label(received_bytes: u64, total_bytes: Option<u64>) -> (label: String)
    ensures
        label@ == match total_bytes {
            Some(total) => format_bytes_spec(received_bytes as nat) + " of "@ + format_bytes_spec(
                total as nat,
            ),
            None => format_bytes_spec(received_bytes as nat),
        },
{
    match total_bytes {
        Some(total) => {
            let mut label = format_bytes(received_bytes);
            label.append(" of ");
            let total_label = format_bytes(total);
            label.append(total_label.as_str());
            label
        },
        None => format_bytes(received_bytes),
    }
}

} // verus!
