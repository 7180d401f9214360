//! The theme mode quick toggle of the top bar.
use vstd::prelude::*;

verus! {

/// Whether the shell follows the system theme or forces light or dark.
#[derive(Clone, Copy, Debug, PartialEq, Eq, Structural)]
pub enum ThemeMode {
    System,
    Light,
    Dark,
}

/// The mode after one press of the toggle: System, then Light, then Dark,
/// then System again.
pub open spec fn next_theme_mode_spec(mode: ThemeMode) -> ThemeMode {
    match mode {
        ThemeMode::System => ThemeMode::Light,
        ThemeMode::Light => ThemeMode::Dark,
        ThemeMode::Dark => ThemeMode::System,
    }
}

/// The mode after `presses` presses of the toggle, starting from `mode`.
pub open spec fn after_presses(mode: ThemeMode, presses: nat) -> ThemeMode
    decreases presses,
{
    if presses == 0 {
        mode
    } else {
        after_presses(next_theme_mode_spec(mode), (presses - 1) as nat)
    }
}

/// The mode the top bar toggle switches to from `mode`.
pub fn next_theme_mode(mode: ThemeMode) -> (next: ThemeMode)
    ensures
        next == next_theme_mode_spec(mode),
{
    match mode {
        ThemeMode::System => ThemeMode::Light,
        ThemeMode::Light => ThemeMode::Dark,
        ThemeMode::Dark => ThemeMode::System,
    }
}

/// The toggle never stays on a mode, three presses bring back the mode it
/// started from, and from any mode it reaches every mode within two presses.
pub proof fn lemma_theme_toggle_cycles(start: ThemeMode, target: ThemeMode)
    ensures
        next_theme_mode_spec(start) != start,
        after_presses(start, 3) == start,
        exists|k: nat| k < 3 && #[trigger] after_presses(start, k) == target,
{
    reveal_with_fuel(after_presses, 4);
    if after_presses(start, 0) == target {
        assert(after_presses(start, 0) == target);
    } else if after_presses(start, 1) == target {
        assert(after_presses(start, 1) == target);
    } else {
        assert(after_presses(start, 2) == target);
    }
}

} // verus!
