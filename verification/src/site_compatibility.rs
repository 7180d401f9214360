//! The diagnostics text that the Site Compatibility page copies for a bug report.
use vstd::prelude::*;

use crate::profiles::{ProfileKind, profile_kind_label};
use crate::tab_context::{TabState, diagnostic_tab_state_label};
use crate::text::{append_chars, decimal, decimal_chars, join, owned};

verus! {

/// What the diagnostics report says about the build, the profile and the active tab.
#[derive(Clone, Debug)]
pub struct DiagnosticFacts {
    pub build_revision: String,
    pub servo_version: String,
    pub gpui_version: String,
    pub space_name: String,
    pub profile_name: String,
    pub profile_kind: ProfileKind,
    pub diagnostic_events: usize,
    pub url_scope: String,
    pub tab_title: String,
    pub tab_state: TabState,
    pub site_permissions: usize,
    pub permission_audit_events: usize,
}

/// The part of a tab's address that a report may show: the site origin
/// when the address has one, else the whole address (internal routes).
pub fn diagnostic_url_scope(url: &str, origin: Option<&str>) -> (scope: String)
    ensures
        scope@ == match origin {
            Some(o) => o@,
            None => url@,
        },
{
    match origin {
        Some(origin) => owned(origin),
        None => owned(url),
    }
}

/// The headline and the advice of the compatibility summary for the
/// state of the active tab.
pub fn compatibility_summary_text(state: &TabState) -> (text: (&'static str, &'static str))
    ensures
        text.0@ == match *state {
            TabState::Ready => "Current page is ready"@,
            TabState::Loading => "Current page is loading"@,
            TabState::Crashed => "Current page crashed"@,
            TabState::Discarded => "Current page is sleeping"@,
            TabState::Archived => "Current page is archived"@,
        },
        text.1@ == match *state {
            TabState::Ready => "Diagnostics omit URL path and query before copying."@,
            TabState::Loading => "Capture diagnostics after the page reaches a stable state."@,
            TabState::Crashed => "The copied report includes tab state and profile-scoped permissions."@,
            TabState::Discarded => "Wake the tab to refresh Servo rendering details."@,
            TabState::Archived => "Restore the tab to refresh Servo rendering details."@,
        },
{
    match state {
        TabState::Ready => (
            "Current page is ready",
            "Diagnostics omit URL path and query before copying.",
        ),
        TabState::Loading => (
            "Current page is loading",
            "Capture diagnostics after the page reaches a stable state.",
        ),
        TabState::Crashed => (
            "Current page crashed",
            "The copied report includes tab state and profile-scoped permissions.",
        ),
        TabState::Discarded => (
            "Current page is sleeping",
            "Wake the tab to refresh Servo rendering details.",
        ),
        TabState::Archived => (
            "Current page is archived",
            "Restore the tab to refresh Servo rendering details.",
        ),
    }
}

/// The lines of the diagnostics report.
pub open spec fn report_lines(f: DiagnosticFacts) -> Seq<Seq<char>> {
    seq![
        "ELY Browser Site Compatibility Diagnostics"@,
        "Build: "@ + f.build_revision@,
        "Servo: servo "@ + f.servo_version@,
        "GPUI: gpui "@ + f.gpui_version@,
        "Space: "@ + f.space_name@,
        "Profile: "@ + f.profile_name@,
        "Profile kind: "@ + match f.profile_kind {
            ProfileKind::Standard => "Standard"@,
            ProfileKind::Private => "Private"@,
        },
        "Local diagnostics: "@ + decimal(f.diagnostic_events as nat),
        "URL scope: "@ + f.url_scope@,
        "Tab title: "@ + f.tab_title@,
        "Tab state: "@ + match f.tab_state {
            TabState::Loading => "Loading"@,
            TabState::Ready => "Ready"@,
            TabState::Crashed => "Crashed"@,
            TabState::Discarded => "Sleeping"@,
            TabState::Archived => "Archived"@,
        },
        "Site permissions: "@ + decimal(f.site_permissions as nat),
        "Permission audit events: "@ + decimal(f.permission_audit_events as nat),
        "Console summary: No console events captured by the current Servo host bridge."@,
    ]
}

/// One line of the report: `label` followed by `value`.
fn labelled(label: &str, value: &str) -> (line: String)
    ensures
        line@ == label@ + value@,
{
    let mut line = owned(label);
    line.append(value);
    line
}

/// One line of the report: `label` followed by a count.
fn labelled_count(label: &str, count: usize) -> (line: String)
    ensures
        line@ == label@ + decimal(count as nat),
{
    let mut line = owned(label);
    append_chars(&mut line, &decimal_chars(count as u128));
    line
}

/// The diagnostics report: one line per fact, separated by newlines.
pub fn diagnostic_report(facts: &DiagnosticFacts) -> (report: String)
    ensures
        report@ == join(report_lines(*facts), seq!['\n']),
{
    let mut lines: Vec<String> = Vec::new();
    lines.push(owned("ELY Browser Site Compatibility Diagnostics"));
    lines.push(labelled("Build: ", facts.build_revision.as_str()));
    lines.push(labelled("Servo: servo ", facts.servo_version.as_str()));
    lines.push(labelled("GPUI: gpui ", facts.gpui_version.as_str()));
    lines.push(labelled("Space: ", facts.space_name.as_str()));
    lines.push(labelled("Profile: ", facts.profile_name.as_str()));
    lines.push(labelled("Profile kind: ", profile_kind_label(&facts.profile_kind)));
    lines.push(labelled_count("Local diagnostics: ", facts.diagnostic_events));
    lines.push(labelled("URL scope: ", facts.url_scope.as_str()));
    lines.push(labelled("Tab title: ", facts.tab_title.as_str()));
    lines.push(labelled("Tab state: ", diagnostic_tab_state_label(&facts.tab_state)));
    lines.push(labelled_count("Site permissions: ", facts.site_permissions));
    lines.push(labelled_count("Permission audit events: ", facts.permission_audit_events));
    lines.push(owned("Console summary: No console events captured by the current Servo host bridge."));
    assert(lines.deep_view() =~= report_lines(*facts));
    let mut report = String::new();
    let mut i: usize = 0;
    while i < lines.len()
        invariant
            i <= lines.len(),
            report@ == join(lines.deep_view().take(i as int), seq!['\n']),
        decreases lines.len() - i,
    {
        let ghost prefix = lines.deep_view().take(i + 1);
        assert(prefix.drop_last() =~= lines.deep_view().take(i as int));
        if i > 0 {
            report.append("\n");
            proof {
                reveal_strlit("\n");
            }
        }
        report.append(lines[i].as_str());
        i = i + 1;
        proof {
            if i == 1 {
                assert(report@ =~= lines.deep_view()[0]);
            }
            assert(report@ =~= join(lines.deep_view().take(i as int), seq!['\n']));
        }
    }
    assert(lines.deep_view().take(lines.len() as int) =~= lines.deep_view());
    report
}

/// The report has fourteen lines. Its eleventh says the state of the tab in
/// the diagnostics' words (a crashed tab is "Crashed", a discarded one
/// "Sleeping"), its seventh the kind of the profile, and its ninth the
/// address scope and nothing more of the address.
pub proof fn lemma_report_states_the_tab(f: DiagnosticFacts)
    ensures
        report_lines(f).len() == 14,
        report_lines(f)[10] == "Tab state: "@ + match f.tab_state {
            TabState::Loading => "Loading"@,
            TabState::Ready => "Ready"@,
            TabState::Crashed => "Crashed"@,
            TabState::Discarded => "Sleeping"@,
            TabState::Archived => "Archived"@,
        },
        f.tab_state == TabState::Crashed ==> report_lines(f)[10] == "Tab state: Crashed"@,
        f.tab_state == TabState::Ready ==> report_lines(f)[10] == "Tab state: Ready"@,
        report_lines(f)[6] == "Profile kind: "@ + match f.profile_kind {
            ProfileKind::Standard => "Standard"@,
            ProfileKind::Private => "Private"@,
        },
        report_lines(f)[8] == "URL scope: "@ + f.url_scope@,
{
    reveal_strlit("Tab state: ");
    reveal_strlit("Crashed");
    reveal_strlit("Ready");
    reveal_strlit("Tab state: Crashed");
    reveal_strlit("Tab state: Ready");
    assert("Tab state: "@ + "Crashed"@ =~= "Tab state: Crashed"@);
    assert("Tab state: "@ + "Ready"@ =~= "Tab state: Ready"@);
}

} // verus!
