//! Moving the highlighted row of the command overlay.
use vstd::prelude::*;

use crate::plugins::{lowercase, to_lowercase};
use crate::text::{chars_equal, chars_of, string_from_chars, sub_chars, trim, trim_chars};

verus! {

/// The search text of a command query: queries start with `>`, and the
/// rest, trimmed and lower-cased, is what commands are matched against.
pub open spec fn command_needle_spec(query: Seq<char>) -> Option<Seq<char>> {
    if query.len() > 0 && query[0] == '>' {
        Some(lowercase(trim(query.drop_first())))
    } else {
        None
    }
}

/// The search text of a command query, if it is one.
pub fn command_needle(query: &str) -> (needle: Option<String>)
    ensures
        match needle {
            Some(n) => command_needle_spec(query@) == Some(n@),
            None => command_needle_spec(query@) is None,
        },
{
    let chars = chars_of(query);
    if chars.len() == 0 || chars[0] != '>' {
        return None;
    }
    let rest = sub_chars(&chars, 1, chars.len());
    assert(rest@ =~= query@.drop_first());
    let trimmed = string_from_chars(&trim_chars(&rest));
    Some(to_lowercase(trimmed.as_str()))
}

/// What a key does in the command overlay.
#[derive(Clone, Copy, Debug, PartialEq, Eq, Structural)]
pub enum CommandKeyAction {
    /// The key is not one the overlay handles.
    Ignore,
    /// Highlight this row.
    Select(usize),
    /// Run the highlighted command.
    Activate,
}

/// What `key` does in the command overlay with `total_rows` rows and row
/// `selected` highlighted: arrows move the highlight round the rows, enter
/// runs the command, other keys are left alone.
pub fn command_key_action(key: &str, total_rows: usize, selected: usize) -> (action: CommandKeyAction)
    requires
        selected < usize::MAX,
    ensures
        action == if key@ == "up"@ {
            CommandKeyAction::Select(previous_row(selected as nat, total_rows as nat) as usize)
        } else if key@ == "down"@ {
            CommandKeyAction::Select(next_row(selected as nat, total_rows as nat) as usize)
        } else if key@ == "enter"@ {
            CommandKeyAction::Activate
        } else {
            CommandKeyAction::Ignore
        },
{
    let k = chars_of(key);
    if chars_equal(&k, &chars_of("up")) {
        CommandKeyAction::Select(command_select_prev(selected, total_rows))
    } else if chars_equal(&k, &chars_of("down")) {
        CommandKeyAction::Select(command_select_next(selected, total_rows))
    } else if chars_equal(&k, &chars_of("enter")) {
        CommandKeyAction::Activate
    } else {
        CommandKeyAction::Ignore
    }
}

/// The row after `selected`, wrapping to the first; row 0 when there are no rows.
pub open spec fn next_row(selected: nat, total_rows: nat) -> nat {
    if total_rows == 0 {
        0
    } else {
        (selected + 1) % total_rows
    }
}

/// The row before `selected`, wrapping to the last; row 0 when there are no rows.
pub open spec fn previous_row(selected: nat, total_rows: nat) -> nat {
    if total_rows == 0 {
        0
    } else if selected == 0 {
        (total_rows - 1) as nat
    } else {
        (selected - 1) as nat
    }
}

/// The highlighted row after moving down.
pub fn command_select_next(selected: usize, total_rows: usize) -> (next: usize)
    requires
        selected < usize::MAX,
    ensures
        next == next_row(selected as nat, total_rows as nat),
{
    if total_rows == 0 {
        return 0;
    }
    (selected + 1) % total_rows
}

/// The highlighted row after moving up.
pub fn command_select_prev(selected: usize, total_rows: usize) -> (prev: usize)
    ensures
        prev == previous_row(selected as nat, total_rows as nat),
{
    if total_rows == 0 {
        return 0;
    }
    if selected == 0 {
        total_rows - 1
    } else {
        selected - 1
    }
}

/// The row that enter runs: the highlighted one, or the last row when the
/// highlight lies past the rows that are shown; none when no row is shown.
pub fn command_activated_row(selected: usize, total_rows: usize) -> (row: Option<usize>)
    ensures
        total_rows == 0 ==> row is None,
        total_rows > 0 ==> row == Some(
            if selected < total_rows { selected } else { (total_rows - 1) as usize },
        ),
{
    if total_rows == 0 {
        return None;
    }
    if selected < total_rows {
        Some(selected)
    } else {
        Some(total_rows - 1)
    }
}

/// Whether the address bar text is a command query: it starts with `>`.
pub open spec fn is_command_query(query: Seq<char>) -> bool {
    query.len() > 0 && query[0] == '>'
}

/// The command overlay: the text typed in the address bar and the
/// highlighted row of the commands it matches.
#[derive(Clone, Debug)]
pub struct CommandOverlay {
    pub query: String,
    pub selected: usize,
}

/// What a key press in the command overlay did.
#[derive(Clone, Copy, Debug, PartialEq, Eq, Structural)]
pub enum OverlayKeyOutcome {
    /// The overlay did not handle the key; it goes on to other handlers.
    Ignored,
    /// An arrow moved the highlight to another row; the overlay is redrawn.
    Moved,
    /// An arrow was taken but the highlight did not move to another row
    /// (a single row, or no rows, where the highlight returns to the first
    /// row); nothing is redrawn.
    Held,
    /// Enter found no command to run; the key is still taken.
    NothingToRun,
    /// Enter runs the command of this row, and the overlay is dismissed.
    Run(usize),
}

impl CommandOverlay {
    /// Handles `key` while `total_rows` commands match the query; `ready`
    /// is whether the browser state could be read. Only up, down and enter
    /// are handled, and only when the state is ready and the query is a
    /// command query; otherwise nothing changes. Arrows move the highlight
    /// round the rows, and ask for a redraw only when it lands on another
    /// row; enter runs the highlighted row (the last one when
    /// the highlight lies past the rows), then clears the query and the
    /// highlight.
    pub fn on_key(&mut self, ready: bool, key: &str, total_rows: usize) -> (outcome: OverlayKeyOutcome)
        requires
            key@ == "down"@ ==> old(self).selected < usize::MAX,
        ensures
            !(key@ == "up"@ || key@ == "down"@ || key@ == "enter"@) || !ready
                || !is_command_query(old(self).query@) ==> outcome == OverlayKeyOutcome::Ignored
                && final(self).query@ == old(self).query@ && final(self).selected
                == old(self).selected,
            ready && is_command_query(old(self).query@) && key@ == "up"@ ==> final(self).query@
                == old(self).query@ && final(self).selected == previous_row(
                old(self).selected as nat,
                total_rows as nat,
            ),
            ready && is_command_query(old(self).query@) && key@ == "down"@ ==> final(self).query@
                == old(self).query@ && final(self).selected == next_row(
                old(self).selected as nat,
                total_rows as nat,
            ),
            ready && is_command_query(old(self).query@) && (key@ == "up"@ || key@ == "down"@)
                ==> outcome == if total_rows > 0 && final(self).selected != old(self).selected {
                OverlayKeyOutcome::Moved
            } else {
                OverlayKeyOutcome::Held
            },
            ready && is_command_query(old(self).query@) && key@ == "enter"@ && total_rows == 0
                ==> outcome == OverlayKeyOutcome::NothingToRun && final(self).query@ == old(
                self,
            ).query@ && final(self).selected == old(self).selected,
            ready && is_command_query(old(self).query@) && key@ == "enter"@ && total_rows > 0
                ==> outcome == OverlayKeyOutcome::Run(
                if old(self).selected < total_rows {
                    old(self).selected
                } else {
                    (total_rows - 1) as usize
                },
            ) && final(self).query@ == Seq::<char>::empty() && final(self).selected == 0,
    {
        proof {
            reveal_strlit("up");
            reveal_strlit("down");
            reveal_strlit("enter");
            assert("up"@.len() == 2 && "down"@.len() == 4 && "enter"@.len() == 5);
            assert("up"@ != "down"@ && "up"@ != "enter"@ && "down"@ != "enter"@);
        }
        let k = chars_of(key);
        let up = chars_equal(&k, &chars_of("up"));
        let down = chars_equal(&k, &chars_of("down"));
        let enter = chars_equal(&k, &chars_of("enter"));
        if !(up || down || enter) || !ready {
            return OverlayKeyOutcome::Ignored;
        }
        let query = chars_of(self.query.as_str());
        if query.len() == 0 || query[0] != '>' {
            return OverlayKeyOutcome::Ignored;
        }
        if up || down {
            let previous = self.selected;
            self.selected = if up {
                command_select_prev(previous, total_rows)
            } else {
                command_select_next(previous, total_rows)
            };
            if total_rows > 0 && self.selected != previous {
                OverlayKeyOutcome::Moved
            } else {
                OverlayKeyOutcome::Held
            }
        } else {
            match command_activated_row(self.selected, total_rows) {
                None => OverlayKeyOutcome::NothingToRun,
                Some(row) => {
                    self.query = String::new();
                    self.selected = 0;
                    OverlayKeyOutcome::Run(row)
                },
            }
        }
    }
}

/// Moving down always lands on a row that exists, and moving back up from
/// there returns to the row that was highlighted.
pub proof fn lemma_select_next_then_prev(selected: nat, total_rows: nat)
    requires
        selected < total_rows,
    ensures
        next_row(selected, total_rows) < total_rows,
        previous_row(next_row(selected, total_rows), total_rows) == selected,
{
    lemma_wrap_forward(selected, total_rows);
}

/// Moving up always lands on a row that exists, and moving back down from
/// there returns to the row that was highlighted.
pub proof fn lemma_select_prev_then_next(selected: nat, total_rows: nat)
    requires
        selected < total_rows,
    ensures
        previous_row(selected, total_rows) < total_rows,
        next_row(previous_row(selected, total_rows), total_rows) == selected,
{
    lemma_wrap_forward(previous_row(selected, total_rows), total_rows);
}

/// One step forward from a row stays within the rows, wrapping only at the last one.
proof fn lemma_wrap_forward(selected: nat, total_rows: nat)
    requires
        selected < total_rows,
    ensures
        selected + 1 < total_rows ==> (selected + 1) % total_rows == selected + 1,
        selected + 1 == total_rows ==> (selected + 1) % total_rows == 0,
{
    if selected + 1 < total_rows {
        vstd::arithmetic::div_mod::lemma_small_mod((selected + 1) as nat, total_rows);
    } else {
        vstd::arithmetic::div_mod::lemma_mod_self_0(total_rows as int);
    }
}

} // verus!
