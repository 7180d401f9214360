//! The context rows shown for a tab: its favicon, space and profile.
use vstd::prelude::*;

use crate::text::owned;

verus! {

/// What the shell shows of a space.
#[derive(Clone, Debug)]
pub struct SpaceSummary {
    pub id: String,
    pub name: String,
}

/// The favicon row of a tab.
pub fn favicon_status(favicon_key: Option<&str>) -> (status: String)
    ensures
        status@ == match favicon_key {
            Some(key) => "Saved: "@ + key@,
            None => "No favicon saved"@,
        },
{
    match favicon_key {
        Some(key) => {
            let mut status = String::from_str("Saved: ");
            status.append(key);
            status
        },
        None => String::from_str("No favicon saved"),
    }
}

/// The index of the first space in `spaces` with identifier `id`.
pub open spec fn first_space_index(spaces: Seq<SpaceSummary>, id: Seq<char>) -> Option<nat>
    decreases spaces.len(),
{
    if spaces.len() == 0 {
        None
    } else if spaces[0].id@ == id {
        Some(0)
    } else {
        match first_space_index(spaces.drop_first(), id) {
            Some(k) => Some(k + 1),
            None => None,
        }
    }
}

/// The name of the first space with identifier `id`.
pub open spec fn space_name_for(spaces: Seq<SpaceSummary>, id: Seq<char>) -> Option<Seq<char>> {
    match first_space_index(spaces, id) {
        Some(k) => Some(spaces[k as int].name@),
        None => None,
    }
}

proof fn lemma_first_space_index(spaces: Seq<SpaceSummary>, id: Seq<char>)
    ensures
        first_space_index(spaces, id) matches Some(k) ==> k < spaces.len() && spaces[k as int].id@
            == id && forall|j: int| 0 <= j < k ==> spaces[j].id@ != id,
        first_space_index(spaces, id) is None ==> forall|j: int|
            0 <= j < spaces.len() ==> spaces[j].id@ != id,
    decreases spaces.len(),
{
    if spaces.len() > 0 && spaces[0].id@ != id {
        lemma_first_space_index(spaces.drop_first(), id);
        assert forall|j: int| 1 <= j < spaces.len() implies spaces[j] == spaces.drop_first()[j
            - 1] by {}
    }
}

/// The name of the space with identifier `space_id`, if some space has it.
pub fn find_space_name(space_id: &String, spaces: &[SpaceSummary]) -> (name: Option<String>)
    ensures
        match name {
            Some(n) => space_name_for(spaces@, space_id@) == Some(n@),
            None => space_name_for(spaces@, space_id@) is None,
        },
{
    proof {
        lemma_first_space_index(spaces@, space_id@);
    }
    let mut i: usize = 0;
    while i < spaces.len()
        invariant
            i <= spaces@.len(),
            forall|j: int| 0 <= j < i ==> spaces@[j].id@ != space_id@,
            first_space_index(spaces@, space_id@) matches Some(k) ==> k < spaces@.len()
                && spaces@[k as int].id@ == space_id@ && forall|j: int|
                0 <= j < k ==> spaces@[j].id@ != space_id@,
            first_space_index(spaces@, space_id@) is None ==> forall|j: int|
                0 <= j < spaces@.len() ==> spaces@[j].id@ != space_id@,
        decreases spaces@.len() - i,
    {
        if spaces[i].id == *space_id {
            return Some(owned(spaces[i].name.as_str()));
        }
        i = i + 1;
    }
    None
}

/// The space row of a tab: the space's name, or its identifier when no
/// space has it.
pub fn space_name(space_id: &String, spaces: &[SpaceSummary]) -> (name: String)
    ensures
        name@ == match space_name_for(spaces@, space_id@) {
            Some(n) => n,
            None => space_id@,
        },
{
    match find_space_name(space_id, spaces) {
        Some(name) => name,
        None => owned(space_id.as_str()),
    }
}

/// The loading state of a tab.
#[derive(Clone, Copy, Debug, PartialEq, Eq, Structural)]
pub enum TabState {
    Loading,
    Ready,
    Crashed,
    Discarded,
    Archived,
}

/// The state of a tab as the Task Manager words it.
pub fn tab_state_label(state: &TabState) -> (label: &'static str)
    ensures
        label@ == match *state {
            TabState::Loading => "Loading"@,
            TabState::Ready => "Ready"@,
            TabState::Crashed => "Crashed"@,
            TabState::Discarded => "Discarded"@,
            TabState::Archived => "Archived"@,
        },
{
    match state {
        TabState::Loading => "Loading",
        TabState::Ready => "Ready",
        TabState::Crashed => "Crashed",
        TabState::Discarded => "Discarded",
        TabState::Archived => "Archived",
    }
}

/// The state of a tab as the compatibility diagnostics word it: a
/// discarded tab is "Sleeping".
pub fn diagnostic_tab_state_label(state: &TabState) -> (label: &'static str)
    ensures
        label@ == match *state {
            TabState::Loading => "Loading"@,
            TabState::Ready => "Ready"@,
            TabState::Crashed => "Crashed"@,
            TabState::Discarded => "Sleeping"@,
            TabState::Archived => "Archived"@,
        },
{
    match state {
        TabState::Loading => "Loading",
        TabState::Ready => "Ready",
        TabState::Crashed => "Crashed",
        TabState::Discarded => "Sleeping",
        TabState::Archived => "Archived",
    }
}

/// The number of tasks in the Task Manager: tabs, downloads and plugins.
pub fn task_count(tabs: usize, downloads: usize, plugins: usize) -> (count: usize)
    requires
        tabs + downloads + plugins <= usize::MAX,
    ensures
        count == tabs + downloads + plugins,
{
    tabs + downloads + plugins
}

} // verus!
