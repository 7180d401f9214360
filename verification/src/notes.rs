//! Labels of the Notes page: the note count, the one-line body preview and
//! the "updated" time.
use vstd::prelude::*;

use crate::text::{
    chars_of, decimal, decimal_string, lines, split_lines, string_from_chars, trim, trim_chars,
    truncate_char_vec, truncated, lemma_chars_deep_view,
};
use crate::tab_context::{SpaceSummary, find_space_name, space_name_for};
use crate::time::{Timestamp, age_label, current_time, age_phrase, whole_secs_between, whole_secs_between_exec};

verus! {

/// Most characters of the one-line preview before it is cut.
pub const NOTE_PREVIEW_LIMIT: usize = 120;

/// "1 note", or the count followed by "notes".
pub open spec fn notes_count_phrase(count: nat) -> Seq<char> {
    if count == 1 {
        "1 note"@
    } else {
        decimal(count) + " notes"@
    }
}

/// The note count as shown in the page header.
pub fn notes_count_label(count: usize) -> (label: String)
    ensures
        label@ == notes_count_phrase(count as nat),
{
    if count == 1 {
        return String::from_str("1 note");
    }
    let mut label = decimal_string(count as u128);
    label.append(" notes");
    label
}

/// The first line of `ls` that is not blank, trimmed.
pub open spec fn first_nonblank_line(ls: Seq<Seq<char>>) -> Option<Seq<char>>
    decreases ls.len(),
{
    if ls.len() == 0 {
        None
    } else if trim(ls[0]).len() > 0 {
        Some(trim(ls[0]))
    } else {
        first_nonblank_line(ls.drop_first())
    }
}

/// The one-line preview of a note body: its first non-blank line, trimmed
/// (the trimmed body when every line is blank), cut after 120 characters.
pub open spec fn markdown_preview_spec(body: Seq<char>) -> Seq<char> {
    let line = match first_nonblank_line(lines(body)) {
        Some(line) => line,
        None => trim(body),
    };
    truncated(line, NOTE_PREVIEW_LIMIT as nat)
}

/// The one-line preview of a note body.
pub fn markdown_preview(body: &str) -> (preview: String)
    ensures
        preview@ == markdown_preview_spec(body@),
{
    let chars = chars_of(body);
    let all_lines = split_lines(&chars);
    let ghost ls = lines(body@);
    let mut i: usize = 0;
    assert(ls.skip(0) =~= ls);
    while i < all_lines.len()
        invariant
            all_lines.deep_view() == ls,
            ls == lines(body@),
            i <= all_lines.len(),
            first_nonblank_line(ls) == first_nonblank_line(ls.skip(i as int)),
        decreases all_lines.len() - i,
    {
        proof {
            lemma_chars_deep_view(all_lines@[i as int]);
            assert(ls.skip(i as int)[0] == all_lines@[i as int]@);
            assert(ls.skip(i as int).drop_first() =~= ls.skip(i + 1));
        }
        let trimmed = trim_chars(&all_lines[i]);
        if trimmed.len() > 0 {
            assert(first_nonblank_line(ls.skip(i as int)) == Some(trimmed@));
            let cut = truncate_char_vec(&trimmed, NOTE_PREVIEW_LIMIT);
            return string_from_chars(&cut);
        }
        i = i + 1;
    }
    assert(ls.skip(i as int).len() == 0);
    let trimmed = trim_chars(&chars);
    let cut = truncate_char_vec(&trimmed, NOTE_PREVIEW_LIMIT);
    string_from_chars(&cut)
}

/// The name of the space a note belongs to, if that space still exists.
pub fn note_space_name(space_id: &String, spaces: &[SpaceSummary]) -> (name: Option<String>)
    ensures
        match name {
            Some(n) => space_name_for(spaces@, space_id@) == Some(n@),
            None => space_name_for(spaces@, space_id@) is None,
        },
{
    find_space_name(space_id, spaces)
}

/// `value` cut after `limit` characters, with `...` when characters were cut.
pub fn truncate_chars(value: &str, limit: usize) -> (out: String)
    ensures
        out@ == truncated(value@, limit as nat),
{
    let chars = chars_of(value);
    string_from_chars(&truncate_char_vec(&chars, limit))
}

/// How long ago a note was updated, as seen at `now`.
pub fn updated_at_label_for(updated_at: Timestamp, now: Timestamp) -> (label: String)
    ensures
        label@ == age_phrase("Updated"@, whole_secs_between(updated_at, now)),
{
    age_label("Updated", whole_secs_between_exec(updated_at, now))
}


/// How long ago a note was updated, as of the current time.
pub fn updated_at_label(updated_at: Timestamp) -> (label: String)
    ensures
        exists|now: Timestamp| label@ == age_phrase("Updated"@, #[trigger] whole_secs_between(updated_at, now)),
{
    let now = current_time();
    let label = updated_at_label_for(updated_at, now);
    assert(label@ == age_phrase("Updated"@, whole_secs_between(updated_at, now)));
    label
}

} // verus!
