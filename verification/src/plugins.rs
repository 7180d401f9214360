//! The plugin catalog: search, risk summary and card colours.
use vstd::prelude::*;

use vstd::string::StringSliceAdditionalSpecFns;

use crate::text::{chars_of, decimal, decimal_string, join, extend_chars, string_from_chars};

verus! {

/// What the catalog shows of an installed plugin.
#[derive(Clone, Debug)]
pub struct PluginListing {
    pub name: String,
    pub author: String,
    pub description: String,
    /// The manifest asks for at least one high-risk permission.
    pub has_high_risk_permissions: bool,
    /// The plugin is enabled for the kind of the active profile.
    pub enabled_for_profile: bool,
}

/// What happened to a plugin, as recorded in the audit log.
#[derive(Clone, Copy, Debug, PartialEq, Eq, Structural)]
pub enum PluginAuditAction {
    Installed,
    Enabled,
    Disabled,
}

/// The label of an audit action.
pub fn plugin_audit_action_label(action: &PluginAuditAction) -> (label: &'static str)
    ensures
        label@ == match *action {
            PluginAuditAction::Installed => "Installed"@,
            PluginAuditAction::Enabled => "Enabled"@,
            PluginAuditAction::Disabled => "Disabled"@,
        },
{
    match action {
        PluginAuditAction::Installed => "Installed",
        PluginAuditAction::Enabled => "Enabled",
        PluginAuditAction::Disabled => "Disabled",
    }
}

/// The lower-case form of `s` that `str::to_lowercase` gives.
pub uninterp spec fn lowercase(s: Seq<char>) -> Seq<char>;

/// `str::to_lowercase`: the Unicode lower-case form of the text.
#[verifier::external_body]
pub(crate) fn to_lowercase(s: &str) -> (out: String)
    ensures
        out@ == lowercase(s@),
{
    s.to_lowercase()
}

/// The upper-case form of `s` that `str::to_uppercase` gives.
pub uninterp spec fn uppercase(s: Seq<char>) -> Seq<char>;

/// `str::to_uppercase`: the Unicode upper-case form of the text.
#[verifier::external_body]
fn to_uppercase(s: &str) -> (out: String)
    ensures
        out@ == uppercase(s@),
{
    s.to_uppercase()
}

/// The route of a plugin's detail page.
pub fn plugin_detail_route(plugin_id: &str) -> (route: String)
    ensures
        route@ == "ely://plugin/"@ + plugin_id@,
{
    let mut route = String::from_str("ely://plugin/");
    route.append(plugin_id);
    route
}

/// The status line of a plugin card.
pub fn plugin_status_label(enabled: bool) -> (label: &'static str)
    ensures
        label@ == if enabled { "Enabled"@ } else { "Disabled"@ },
{
    if enabled { "Enabled" } else { "Disabled" }
}

/// The glyph on a plugin cover: the first character of its name, or a
/// diamond when the name is empty.
pub open spec fn cover_glyph(name: Seq<char>) -> char {
    if name.len() > 0 { name[0] } else { '\u{25C7}' }
}

/// The letter on a plugin cover: the upper-case form of its glyph.
pub fn plugin_cover_initial(name: &str) -> (initial: String)
    ensures
        initial@ == uppercase(seq![cover_glyph(name@)]),
{
    let chars = chars_of(name);
    let glyph = if chars.len() > 0 { chars[0] } else { '\u{25C7}' };
    let glyph_chars = vec![glyph];
    let glyph_text = string_from_chars(&glyph_chars);
    proof {
        assert(glyph_chars@ =~= seq![cover_glyph(name@)]);
    }
    to_uppercase(glyph_text.as_str())
}

/// The permission count of a plugin card: "N permissions".
pub fn plugin_permission_count_label(count: usize) -> (label: String)
    ensures
        label@ == decimal(count as nat) + " permissions"@,
{
    let mut label = decimal_string(count as u128);
    label.append(" permissions");
    label
}

/// The high-risk count of a plugin card: "N high risk".
pub fn plugin_high_risk_count_label(count: usize) -> (label: String)
    ensures
        label@ == decimal(count as nat) + " high risk"@,
{
    let mut label = decimal_string(count as u128);
    label.append(" high risk");
    label
}

/// Whether `needle` occurs in `haystack`.
pub open spec fn contains_text(haystack: Seq<char>, needle: Seq<char>) -> bool {
    exists|i: int| 0 <= i <= haystack.len() - needle.len() && #[trigger] haystack.subrange(i, i + needle.len()) == needle
}

/// Whether `needle` occurs at position `i` of `haystack`.
fn occurs_at(haystack: &Vec<char>, needle: &Vec<char>, i: usize) -> (found: bool)
    requires
        i + needle.len() <= haystack.len(),
    ensures
        found == (haystack@.subrange(i as int, i + needle.len()) == needle@),
{
    let mut k: usize = 0;
    while k < needle.len()
        invariant
            k <= needle.len(),
            i + needle.len() <= haystack.len(),
            forall|j: int| 0 <= j < k ==> haystack@[i + j] == needle@[j],
        decreases needle.len() - k,
    {
        if haystack[i + k] != needle[k] {
            assert(haystack@.subrange(i as int, i + needle.len())[k as int] != needle@[k as int]);
            return false;
        }
        k = k + 1;
    }
    assert(haystack@.subrange(i as int, i + needle.len()) =~= needle@);
    true
}

/// Whether `needle` occurs in `haystack`.
pub fn text_contains(haystack: &str, needle: &str) -> (found: bool)
    ensures
        found == contains_text(haystack@, needle@),
{
    let h = chars_of(haystack);
    let n = chars_of(needle);
    if n.len() > h.len() {
        return false;
    }
    let last = h.len() - n.len();
    let mut i: usize = 0;
    while i < last
        invariant
            h@ == haystack@,
            n@ == needle@,
            last == h.len() - n.len(),
            i <= last,
            forall|j: int| 0 <= j < i ==> #[trigger] haystack@.subrange(j, j + needle@.len()) != needle@,
        decreases last - i,
    {
        if occurs_at(&h, &n, i) {
            return true;
        }
        i = i + 1;
    }
    occurs_at(&h, &n, last)
}

/// Whether a plugin matches the search text `needle` (already lower case):
/// every plugin matches an empty search; otherwise the lower-cased name,
/// author or description must contain it.
pub open spec fn matches_plugin_spec(plugin: PluginListing, needle: Seq<char>) -> bool {
    needle.len() == 0 || contains_text(lowercase(plugin.name@), needle) || contains_text(
        lowercase(plugin.author@),
        needle,
    ) || contains_text(lowercase(plugin.description@), needle)
}

/// Whether a plugin matches the search text.
pub fn matches_plugin(plugin: &PluginListing, needle: &str) -> (found: bool)
    ensures
        found == matches_plugin_spec(*plugin, needle@),
{
    if needle.is_empty() {
        return true;
    }
    let name = to_lowercase(plugin.name.as_str());
    if text_contains(name.as_str(), needle) {
        return true;
    }
    let author = to_lowercase(plugin.author.as_str());
    if text_contains(author.as_str(), needle) {
        return true;
    }
    let description = to_lowercase(plugin.description.as_str());
    text_contains(description.as_str(), needle)
}

/// The plugins that ask for high-risk permissions.
pub open spec fn risky(plugins: Seq<PluginListing>) -> Seq<PluginListing> {
    plugins.filter(|p: PluginListing| p.has_high_risk_permissions)
}

/// The number of plugins that ask for high-risk permissions.
pub fn high_risk_plugin_count(plugins: &[PluginListing]) -> (count: usize)
    ensures
        count == risky(plugins@).len(),
{
    let mut count: usize = 0;
    let mut i: usize = 0;
    while i < plugins.len()
        invariant
            i <= plugins@.len(),
            count == risky(plugins@.take(i as int)).len(),
            count <= i,
        decreases plugins@.len() - i,
    {
        proof {
            reveal(Seq::filter);
            assert(plugins@.take(i + 1).drop_last() =~= plugins@.take(i as int));
        }
        if plugins[i].has_high_risk_permissions {
            count = count + 1;
        }
        i = i + 1;
    }
    assert(plugins@.take(plugins@.len() as int) =~= plugins@);
    count
}

/// The catalog chip: "Sandboxed" when no plugin asks for a high-risk
/// permission, else "Audit needed".
pub fn sandbox_chip_label(plugins: &[PluginListing]) -> (label: &'static str)
    ensures
        label@ == if forall|i: int| 0 <= i < plugins@.len() ==> !(#[trigger] plugins@[i]).has_high_risk_permissions {
            "Sandboxed"@
        } else {
            "Audit needed"@
        },
{
    let mut i: usize = 0;
    while i < plugins.len()
        invariant
            i <= plugins@.len(),
            forall|j: int| 0 <= j < i ==> !(#[trigger] plugins@[j]).has_high_risk_permissions,
        decreases plugins@.len() - i,
    {
        if plugins[i].has_high_risk_permissions {
            return "Audit needed";
        }
        i = i + 1;
    }
    "Sandboxed"
}

/// The install prompt line listing high-risk permissions, separated by commas.
pub fn high_risk_permissions_label(permissions: &Vec<String>) -> (label: String)
    ensures
        label@ == "High risk permissions: "@ + join(permissions.deep_view(), ", "@),
{
    let mut out = chars_of("High risk permissions: ");
    let sep = chars_of(", ");
    let ghost start = out@;
    let mut i: usize = 0;
    while i < permissions.len()
        invariant
            i <= permissions.len(),
            sep@ == ", "@,
            start == "High risk permissions: "@,
            out@ == start + join(permissions.deep_view().take(i as int), sep@),
        decreases permissions.len() - i,
    {
        let ghost prefix = permissions.deep_view().take(i + 1);
        assert(prefix.drop_last() =~= permissions.deep_view().take(i as int));
        if i > 0 {
            extend_chars(&mut out, &sep);
        }
        let part = chars_of(permissions[i].as_str());
        extend_chars(&mut out, &part);
        i = i + 1;
        proof {
            if i == 1 {
                assert(join(permissions.deep_view().take(1), sep@) == permissions.deep_view()[0]);
            }
            assert(out@ =~= start + join(permissions.deep_view().take(i as int), sep@));
        }
    }
    assert(permissions.deep_view().take(permissions.len() as int) =~= permissions.deep_view());
    string_from_chars(&out)
}

/// The position of the plugin featured in the Editor's pick.
pub fn featured_plugin(plugins: &[PluginListing]) -> (index: Option<usize>)
    ensures
        match index {
            Some(k) => k < plugins@.len() && ((plugins@[k as int].enabled_for_profile && (forall|j: int|
                0 <= j < k ==> !(#[trigger] plugins@[j]).enabled_for_profile)) || (k == 0 && (forall|j: int|
                0 <= j < plugins@.len() ==> !(#[trigger] plugins@[j]).enabled_for_profile))),
            None => plugins@.len() == 0,
        },
{
    let mut i: usize = 0;
    while i < plugins.len()
        invariant
            i <= plugins@.len(),
            forall|j: int| 0 <= j < i ==> !(#[trigger] plugins@[j]).enabled_for_profile,
        decreases plugins@.len() - i,
    {
        if plugins[i].enabled_for_profile {
            return Some(i);
        }
        i = i + 1;
    }
    if plugins.len() > 0 {
        Some(0)
    } else {
        None
    }
}

/// The number of colour ramps for plugin covers.
pub const COVER_PALETTE_LEN: usize = 8;

/// The byte sum of `bytes` modulo `2^32`.
pub open spec fn wrapping_byte_sum(bytes: Seq<u8>) -> u32
    decreases bytes.len(),
{
    if bytes.len() == 0 {
        0
    } else {
        ((wrapping_byte_sum(bytes.drop_last()) as int + bytes.last() as int) % 0x1_0000_0000) as u32
    }
}

/// The plain sum of the bytes.
pub open spec fn byte_total(bytes: Seq<u8>) -> int
    decreases bytes.len(),
{
    if bytes.len() == 0 {
        0
    } else {
        byte_total(bytes.drop_last()) + bytes.last()
    }
}

/// The wrapping sum is the plain sum modulo `2^32`.
proof fn lemma_wrapping_sum_is_total_mod(bytes: Seq<u8>)
    ensures
        wrapping_byte_sum(bytes) as int == byte_total(bytes) % 0x1_0000_0000,
    decreases bytes.len(),
{
    if bytes.len() > 0 {
        lemma_wrapping_sum_is_total_mod(bytes.drop_last());
        vstd::arithmetic::div_mod::lemma_add_mod_noop(
            byte_total(bytes.drop_last()),
            bytes.last() as int,
            0x1_0000_0000,
        );
        vstd::arithmetic::div_mod::lemma_small_mod(bytes.last() as nat, 0x1_0000_0000);
        vstd::arithmetic::div_mod::lemma_mod_twice(byte_total(bytes.drop_last()), 0x1_0000_0000);
    }
}

/// Taking one byte out of the sum leaves the sum of the others.
proof fn lemma_total_remove(bytes: Seq<u8>, i: int)
    requires
        0 <= i < bytes.len(),
    ensures
        byte_total(bytes) == bytes[i] + byte_total(bytes.remove(i)),
    decreases bytes.len(),
{
    if i == bytes.len() - 1 {
        assert(bytes.remove(i) =~= bytes.drop_last());
    } else {
        lemma_total_remove(bytes.drop_last(), i);
        assert(bytes.remove(i).drop_last() =~= bytes.drop_last().remove(i));
        assert(bytes.remove(i).last() == bytes.last());
    }
}

/// Byte sequences that hold the same bytes have the same sum.
proof fn lemma_total_ignores_order(a: Seq<u8>, b: Seq<u8>)
    requires
        a.to_multiset() == b.to_multiset(),
    ensures
        byte_total(a) == byte_total(b),
    decreases a.len(),
{
    broadcast use vstd::seq_lib::to_multiset_build, vstd::seq_lib::to_multiset_remove,
        vstd::seq_lib::to_multiset_len, vstd::seq_lib::to_multiset_contains,
        vstd::multiset::group_multiset_axioms;

    if a.len() == 0 {
        assert(b.to_multiset().len() == 0);
        assert(b.len() == 0);
    } else {
        let x = a.last();
        let rest = a.drop_last();
        assert(rest.push(x) =~= a);
        assert(a.to_multiset() =~= rest.to_multiset().insert(x));
        assert(a.to_multiset().count(x) > 0);
        assert(b.contains(x));
        let j = choose|j: int| 0 <= j < b.len() && b[j] == x;
        assert(b.remove(j).to_multiset() =~= b.to_multiset().remove(x));
        assert(rest.to_multiset().insert(x).remove(x) =~= rest.to_multiset());
        lemma_total_ignores_order(rest, b.remove(j));
        lemma_total_remove(b, j);
    }
}

/// Reordering the bytes of a plugin's name keeps its cover: names whose
/// UTF-8 bytes are a permutation of each other (the same bytes, counted
/// with repeats) have the same wrapping byte sum, so the same ramp.
pub proof fn lemma_cover_ignores_byte_order(a: Seq<u8>, b: Seq<u8>)
    requires
        a.to_multiset() == b.to_multiset(),
    ensures
        wrapping_byte_sum(a) == wrapping_byte_sum(b),
        wrapping_byte_sum(a) % 8 == wrapping_byte_sum(b) % 8,
{
    lemma_total_ignores_order(a, b);
    lemma_wrapping_sum_is_total_mod(a);
    lemma_wrapping_sum_is_total_mod(b);
}

/// The colour ramp of a plugin cover: the UTF-8 bytes of its name summed
/// (wrapping at `2^32`), modulo the eight ramps, so a plugin always gets
/// the same ramp.
pub fn plugin_cover_bucket(name: &str) -> (bucket: usize)
    ensures
        bucket as int == wrapping_byte_sum(name.spec_bytes()) as int % 8,
        bucket < COVER_PALETTE_LEN,
{
    let bytes = name.as_bytes();
    let mut sum: u32 = 0;
    let mut i: usize = 0;
    while i < bytes.len()
        invariant
            bytes@ == name.spec_bytes(),
            i <= bytes@.len(),
            sum == wrapping_byte_sum(bytes@.take(i as int)),
        decreases bytes@.len() - i,
    {
        assert(bytes@.take(i + 1).drop_last() =~= bytes@.take(i as int));
        sum = sum.wrapping_add(bytes[i] as u32);
        i = i + 1;
    }
    assert(bytes@.take(bytes@.len() as int) =~= bytes@);
    (sum % 8) as usize
}

} // verus!
