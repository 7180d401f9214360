//! Labels of the Reading List page.
use vstd::prelude::*;

use crate::text::{decimal, decimal_string};
use crate::tab_context::{SpaceSummary, find_space_name, space_name_for};
use crate::time::{Timestamp, age_label, current_time, age_phrase, whole_secs_between, whole_secs_between_exec};

verus! {

/// "1 item", or the count followed by "items".
pub open spec fn reading_list_count_phrase(count: nat) -> Seq<char> {
    if count == 1 {
        "1 item"@
    } else {
        decimal(count) + " items"@
    }
}

/// The entry count as shown in the page header.
pub fn reading_list_count_label(count: usize) -> (label: String)
    ensures
        label@ == reading_list_count_phrase(count as nat),
{
    if count == 1 {
        return String::from_str("1 item");
    }
    let mut label = decimal_string(count as u128);
    label.append(" items");
    label
}

/// The name of the space an entry belongs to, if that space still exists.
pub fn reading_list_space_name(space_id: &String, spaces: &[SpaceSummary]) -> (name: Option<String>)
    ensures
        match name {
            Some(n) => space_name_for(spaces@, space_id@) == Some(n@),
            None => space_name_for(spaces@, space_id@) is None,
        },
{
    find_space_name(space_id, spaces)
}

/// How long ago an entry was added, as seen at `now`.
pub fn added_at_label_for(added_at: Timestamp, now: Timestamp) -> (label: String)
    ensures
        label@ == age_phrase("Added"@, whole_secs_between(added_at, now)),
{
    age_label("Added", whole_secs_between_exec(added_at, now))
}


/// How long ago an entry was added, as of the current time.
pub fn added_at_label(added_at: Timestamp) -> (label: String)
    ensures
        exists|now: Timestamp| label@ == age_phrase("Added"@, #[trigger] whole_secs_between(added_at, now)),
{
    let now = current_time();
    let label = added_at_label_for(added_at, now);
    assert(label@ == age_phrase("Added"@, whole_secs_between(added_at, now)));
    label
}

} // verus!
