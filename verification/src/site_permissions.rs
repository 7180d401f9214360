//! Site permission decisions as the settings pages count and describe them.
use vstd::prelude::*;

verus! {

/// A stored answer to a site's permission request.
#[derive(Clone, Copy, Debug, PartialEq, Eq, Structural)]
pub enum SitePermissionDecision {
    AllowOnce,
    AllowAlways,
    DenyAlways,
}

/// What a site can ask permission for.
#[derive(Clone, Copy, Debug, PartialEq, Eq, Structural)]
pub enum SitePermissionFeature {
    Camera,
    Microphone,
    ScreenCapture,
    Location,
    Notifications,
    ClipboardRead,
    ClipboardWrite,
    Downloads,
    Popups,
    Autoplay,
    WebUsb,
    WebHid,
    WebSerial,
    StoragePersistence,
    InsecureContent,
    CertificateException,
}

/// One stored decision: a site origin, a feature, and the answer.
#[derive(Clone, Debug)]
pub struct SitePermissionEntry {
    pub origin: String,
    pub feature: SitePermissionFeature,
    pub decision: SitePermissionDecision,
}

/// One audit record of a change to a site's permissions.
#[derive(Clone, Debug)]
pub struct SitePermissionAuditEvent {
    pub origin: String,
}

/// Whether a decision lets the site use the feature.
pub open spec fn is_allowed(decision: SitePermissionDecision) -> bool {
    decision == SitePermissionDecision::AllowOnce || decision == SitePermissionDecision::AllowAlways
}

/// Entries of `origin`.
pub open spec fn of_origin(origin: Seq<char>) -> spec_fn(SitePermissionEntry) -> bool {
    |e: SitePermissionEntry| e.origin@ == origin
}

/// Entries of `origin` that allow.
pub open spec fn allowed_of_origin(origin: Seq<char>) -> spec_fn(SitePermissionEntry) -> bool {
    |e: SitePermissionEntry| e.origin@ == origin && is_allowed(e.decision)
}

/// Entries of `origin` that deny for good.
pub open spec fn denied_of_origin(origin: Seq<char>) -> spec_fn(SitePermissionEntry) -> bool {
    |e: SitePermissionEntry| e.origin@ == origin && e.decision == SitePermissionDecision::DenyAlways
}

/// Entries that allow.
pub open spec fn allowing() -> spec_fn(SitePermissionEntry) -> bool {
    |e: SitePermissionEntry| is_allowed(e.decision)
}

/// Entries that deny for good.
pub open spec fn denying() -> spec_fn(SitePermissionEntry) -> bool {
    |e: SitePermissionEntry| e.decision == SitePermissionDecision::DenyAlways
}

/// Audit events of `origin`.
pub open spec fn event_of_origin(origin: Seq<char>) -> spec_fn(SitePermissionAuditEvent) -> bool {
    |e: SitePermissionAuditEvent| e.origin@ == origin
}

/// Filtering the first `i + 1` items adds item `i` when it passes.
proof fn lemma_filter_step<A>(s: Seq<A>, i: int, pred: spec_fn(A) -> bool)
    requires
        0 <= i < s.len(),
    ensures
        s.take(i + 1).filter(pred) == if pred(s[i]) {
            s.take(i).filter(pred).push(s[i])
        } else {
            s.take(i).filter(pred)
        },
{
    reveal(Seq::filter);
    assert(s.take(i + 1).drop_last() =~= s.take(i));
}

/// The entries of `origin`.
pub open spec fn entries_of(entries: Seq<SitePermissionEntry>, origin: Seq<char>) -> Seq<SitePermissionEntry> {
    entries.filter(of_origin(origin))
}

/// The entries of `origin` that allow.
pub open spec fn allowed_entries_of(entries: Seq<SitePermissionEntry>, origin: Seq<char>) -> Seq<SitePermissionEntry> {
    entries.filter(allowed_of_origin(origin))
}

/// The entries of `origin` that deny for good.
pub open spec fn denied_entries_of(entries: Seq<SitePermissionEntry>, origin: Seq<char>) -> Seq<SitePermissionEntry> {
    entries.filter(denied_of_origin(origin))
}

/// The entries, of any origin, that allow.
pub open spec fn allowed_entries(entries: Seq<SitePermissionEntry>) -> Seq<SitePermissionEntry> {
    entries.filter(allowing())
}

/// The entries, of any origin, that deny for good.
pub open spec fn denied_entries(entries: Seq<SitePermissionEntry>) -> Seq<SitePermissionEntry> {
    entries.filter(denying())
}

/// The audit events of `origin`.
pub open spec fn audit_events_of(events: Seq<SitePermissionAuditEvent>, origin: Seq<char>) -> Seq<SitePermissionAuditEvent> {
    events.filter(event_of_origin(origin))
}

/// Whether both strings hold the same text.
fn same_origin(a: &String, b: &String) -> (same: bool)
    ensures
        same == (a@ == b@),
{
    *a == *b
}

/// Whether the decision allows.
pub fn decision_allows(decision: SitePermissionDecision) -> (allows: bool)
    ensures
        allows == is_allowed(decision),
{
    match decision {
        SitePermissionDecision::AllowOnce | SitePermissionDecision::AllowAlways => true,
        SitePermissionDecision::DenyAlways => false,
    }
}

/// Whether the decision denies for good.
fn decision_denies(decision: SitePermissionDecision) -> (denies: bool)
    ensures
        denies == (decision == SitePermissionDecision::DenyAlways),
{
    match decision {
        SitePermissionDecision::DenyAlways => true,
        _ => false,
    }
}

/// The number of decisions stored for `origin`.
pub fn configured_count(entries: &[SitePermissionEntry], origin: &String) -> (count: usize)
    ensures
        count == entries_of(entries@, origin@).len(),
{
    let mut count: usize = 0;
    let mut i: usize = 0;
    while i < entries.len()
        invariant
            i <= entries@.len(),
            count == entries_of(entries@.take(i as int), origin@).len(),
            count <= i,
        decreases entries@.len() - i,
    {
        proof {
            lemma_filter_step(entries@, i as int, of_origin(origin@));
        }
        if same_origin(&entries[i].origin, origin) {
            count = count + 1;
        }
        i = i + 1;
    }
    assert(entries@.take(entries@.len() as int) =~= entries@);
    count
}

/// The number of decisions of `origin` that allow.
pub fn allowed_count(entries: &[SitePermissionEntry], origin: &String) -> (count: usize)
    ensures
        count == allowed_entries_of(entries@, origin@).len(),
{
    let mut count: usize = 0;
    let mut i: usize = 0;
    while i < entries.len()
        invariant
            i <= entries@.len(),
            count == allowed_entries_of(entries@.take(i as int), origin@).len(),
            count <= i,
        decreases entries@.len() - i,
    {
        proof {
            lemma_filter_step(entries@, i as int, allowed_of_origin(origin@));
        }
        if same_origin(&entries[i].origin, origin) && decision_allows(entries[i].decision) {
            count = count + 1;
        }
        i = i + 1;
    }
    assert(entries@.take(entries@.len() as int) =~= entries@);
    count
}

/// The number of decisions of `origin` that deny for good.
pub fn denied_count(entries: &[SitePermissionEntry], origin: &String) -> (count: usize)
    ensures
        count == denied_entries_of(entries@, origin@).len(),
{
    let mut count: usize = 0;
    let mut i: usize = 0;
    while i < entries.len()
        invariant
            i <= entries@.len(),
            count == denied_entries_of(entries@.take(i as int), origin@).len(),
            count <= i,
        decreases entries@.len() - i,
    {
        proof {
            lemma_filter_step(entries@, i as int, denied_of_origin(origin@));
        }
        if same_origin(&entries[i].origin, origin) && decision_denies(entries[i].decision) {
            count = count + 1;
        }
        i = i + 1;
    }
    assert(entries@.take(entries@.len() as int) =~= entries@);
    count
}

/// The number of decisions, of all sites, that allow.
pub fn total_allowed_count(entries: &[SitePermissionEntry]) -> (count: usize)
    ensures
        count == allowed_entries(entries@).len(),
{
    let mut count: usize = 0;
    let mut i: usize = 0;
    while i < entries.len()
        invariant
            i <= entries@.len(),
            count == allowed_entries(entries@.take(i as int)).len(),
            count <= i,
        decreases entries@.len() - i,
    {
        proof {
            lemma_filter_step(entries@, i as int, allowing());
        }
        if decision_allows(entries[i].decision) {
            count = count + 1;
        }
        i = i + 1;
    }
    assert(entries@.take(entries@.len() as int) =~= entries@);
    count
}

/// The number of decisions, of all sites, that deny for good.
pub fn total_denied_count(entries: &[SitePermissionEntry]) -> (count: usize)
    ensures
        count == denied_entries(entries@).len(),
{
    let mut count: usize = 0;
    let mut i: usize = 0;
    while i < entries.len()
        invariant
            i <= entries@.len(),
            count == denied_entries(entries@.take(i as int)).len(),
            count <= i,
        decreases entries@.len() - i,
    {
        proof {
            lemma_filter_step(entries@, i as int, denying());
        }
        if decision_denies(entries[i].decision) {
            count = count + 1;
        }
        i = i + 1;
    }
    assert(entries@.take(entries@.len() as int) =~= entries@);
    count
}

/// The number of audit events of `origin`.
pub fn audit_count(events: &[SitePermissionAuditEvent], origin: &String) -> (count: usize)
    ensures
        count == audit_events_of(events@, origin@).len(),
{
    let mut count: usize = 0;
    let mut i: usize = 0;
    while i < events.len()
        invariant
            i <= events@.len(),
            count == audit_events_of(events@.take(i as int), origin@).len(),
            count <= i,
        decreases events@.len() - i,
    {
        proof {
            lemma_filter_step(events@, i as int, event_of_origin(origin@));
        }
        if same_origin(&events[i].origin, origin) {
            count = count + 1;
        }
        i = i + 1;
    }
    assert(events@.take(events@.len() as int) =~= events@);
    count
}

/// The number of decisions stored for the site of the active tab; zero
/// when the tab has no site origin.
pub fn site_permission_count(entries: &[SitePermissionEntry], origin: Option<&String>) -> (count: usize)
    ensures
        count == match origin {
            Some(o) => entries_of(entries@, o@).len(),
            None => 0,
        },
{
    match origin {
        Some(origin) => configured_count(entries, origin),
        None => 0,
    }
}

/// The number of audit events for the site of the active tab; zero when
/// the tab has no site origin.
pub fn site_permission_audit_count(events: &[SitePermissionAuditEvent], origin: Option<&String>) -> (count: usize)
    ensures
        count == match origin {
            Some(o) => audit_events_of(events@, o@).len(),
            None => 0,
        },
{
    match origin {
        Some(origin) => audit_count(events, origin),
        None => 0,
    }
}

/// The index of the first entry of `origin` for `feature`.
pub open spec fn first_decision_index(
    entries: Seq<SitePermissionEntry>,
    origin: Seq<char>,
    feature: SitePermissionFeature,
) -> Option<nat>
    decreases entries.len(),
{
    if entries.len() == 0 {
        None
    } else if entries[0].origin@ == origin && entries[0].feature == feature {
        Some(0)
    } else {
        match first_decision_index(entries.drop_first(), origin, feature) {
            Some(k) => Some(k + 1),
            None => None,
        }
    }
}

/// The decision stored for `origin` and `feature`: the first matching entry's.
pub open spec fn decision_for_spec(
    entries: Seq<SitePermissionEntry>,
    origin: Seq<char>,
    feature: SitePermissionFeature,
) -> Option<SitePermissionDecision> {
    match first_decision_index(entries, origin, feature) {
        Some(k) => Some(entries[k as int].decision),
        None => None,
    }
}

proof fn lemma_first_decision_index(
    entries: Seq<SitePermissionEntry>,
    origin: Seq<char>,
    feature: SitePermissionFeature,
)
    ensures
        first_decision_index(entries, origin, feature) matches Some(k) ==> k < entries.len()
            && entries[k as int].origin@ == origin && entries[k as int].feature == feature
            && forall|j: int| 0 <= j < k ==> !(entries[j].origin@ == origin && entries[j].feature == feature),
        first_decision_index(entries, origin, feature) is None ==> forall|j: int|
            0 <= j < entries.len() ==> !(entries[j].origin@ == origin && entries[j].feature == feature),
    decreases entries.len(),
{
    if entries.len() > 0 && !(entries[0].origin@ == origin && entries[0].feature == feature) {
        lemma_first_decision_index(entries.drop_first(), origin, feature);
        assert forall|j: int| 1 <= j < entries.len() implies entries[j] == entries.drop_first()[j - 1] by {}
    }
}

/// Whether two features are the same.
fn same_feature(a: SitePermissionFeature, b: SitePermissionFeature) -> (same: bool)
    ensures
        same == (a == b),
{
    a == b
}

/// The decision stored for `origin` and `feature`, if any.
pub fn decision_for(
    entries: &[SitePermissionEntry],
    origin: &String,
    feature: SitePermissionFeature,
) -> (decision: Option<SitePermissionDecision>)
    ensures
        decision == decision_for_spec(entries@, origin@, feature),
{
    proof {
        lemma_first_decision_index(entries@, origin@, feature);
    }
    let mut i: usize = 0;
    while i < entries.len()
        invariant
            i <= entries@.len(),
            forall|j: int| 0 <= j < i ==> !(entries@[j].origin@ == origin@ && entries@[j].feature == feature),
            first_decision_index(entries@, origin@, feature) matches Some(k) ==> k < entries@.len()
                && entries@[k as int].origin@ == origin@ && entries@[k as int].feature == feature
                && forall|j: int| 0 <= j < k ==> !(entries@[j].origin@ == origin@ && entries@[j].feature == feature),
            first_decision_index(entries@, origin@, feature) is None ==> forall|j: int|
                0 <= j < entries@.len() ==> !(entries@[j].origin@ == origin@ && entries@[j].feature == feature),
        decreases entries@.len() - i,
    {
        if same_origin(&entries[i].origin, origin) && same_feature(entries[i].feature, feature) {
            return Some(entries[i].decision);
        }
        i = i + 1;
    }
    None
}

/// What a permission feature controls.
pub fn feature_scope_label(feature: SitePermissionFeature) -> (label: &'static str)
    ensures
        label@ == match feature {
            SitePermissionFeature::Camera => "Controls camera capture requests."@,
            SitePermissionFeature::Microphone => "Controls microphone capture requests."@,
            SitePermissionFeature::ScreenCapture => "Controls screen capture requests."@,
            SitePermissionFeature::Location => "Controls location access requests."@,
            SitePermissionFeature::Notifications => "Controls system notification prompts."@,
            SitePermissionFeature::ClipboardRead => "Controls clipboard read requests."@,
            SitePermissionFeature::ClipboardWrite => "Controls clipboard write requests."@,
            SitePermissionFeature::Downloads => "Controls automatic download requests."@,
            SitePermissionFeature::Popups => "Controls popup window requests."@,
            SitePermissionFeature::Autoplay => "Controls autoplay behavior."@,
            SitePermissionFeature::WebUsb => "Controls WebUSB device access."@,
            SitePermissionFeature::WebHid => "Controls WebHID device access."@,
            SitePermissionFeature::WebSerial => "Controls WebSerial device access."@,
            SitePermissionFeature::StoragePersistence => "Controls persistent storage requests."@,
            SitePermissionFeature::InsecureContent => "Controls insecure content loading."@,
            SitePermissionFeature::CertificateException => "Controls certificate exceptions."@,
        },
{
    match feature {
        SitePermissionFeature::Camera => "Controls camera capture requests.",
        SitePermissionFeature::Microphone => "Controls microphone capture requests.",
        SitePermissionFeature::ScreenCapture => "Controls screen capture requests.",
        SitePermissionFeature::Location => "Controls location access requests.",
        SitePermissionFeature::Notifications => "Controls system notification prompts.",
        SitePermissionFeature::ClipboardRead => "Controls clipboard read requests.",
        SitePermissionFeature::ClipboardWrite => "Controls clipboard write requests.",
        SitePermissionFeature::Downloads => "Controls automatic download requests.",
        SitePermissionFeature::Popups => "Controls popup window requests.",
        SitePermissionFeature::Autoplay => "Controls autoplay behavior.",
        SitePermissionFeature::WebUsb => "Controls WebUSB device access.",
        SitePermissionFeature::WebHid => "Controls WebHID device access.",
        SitePermissionFeature::WebSerial => "Controls WebSerial device access.",
        SitePermissionFeature::StoragePersistence => "Controls persistent storage requests.",
        SitePermissionFeature::InsecureContent => "Controls insecure content loading.",
        SitePermissionFeature::CertificateException => "Controls certificate exceptions.",
    }
}

/// Every stored decision of a site either allows or denies for good, so the
/// two counts of a site add up to all of its decisions.
pub proof fn lemma_allowed_and_denied_partition(entries: Seq<SitePermissionEntry>, origin: Seq<char>)
    ensures
        allowed_entries_of(entries, origin).len() + denied_entries_of(entries, origin).len()
            == entries_of(entries, origin).len(),
    decreases entries.len(),
{
    reveal(Seq::filter);
    if entries.len() > 0 {
        lemma_allowed_and_denied_partition(entries.drop_last(), origin);
        let last = entries.last();
        assert(entries.filter(of_origin(origin)) == if of_origin(origin)(last) {
            entries.drop_last().filter(of_origin(origin)).push(last)
        } else {
            entries.drop_last().filter(of_origin(origin))
        });
        assert(entries.filter(allowed_of_origin(origin)) == if allowed_of_origin(origin)(last) {
            entries.drop_last().filter(allowed_of_origin(origin)).push(last)
        } else {
            entries.drop_last().filter(allowed_of_origin(origin))
        });
        assert(entries.filter(denied_of_origin(origin)) == if denied_of_origin(origin)(last) {
            entries.drop_last().filter(denied_of_origin(origin)).push(last)
        } else {
            entries.drop_last().filter(denied_of_origin(origin))
        });
    }
}

} // verus!
