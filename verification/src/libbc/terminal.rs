//! The alternate-screen list dialog as a state machine: which line the
//! cursor is on, how a key moves it, and what the dialog returns. Drawing
//! and key capture are the render collaborator's job.

use vstd::prelude::*;

verus! {

/// A key as the list dialog reads it.
pub enum NavKey {
    /// Escape: leave without choosing.
    Esc,
    /// Any printable character: leave without choosing.
    Other,
    /// Move the cursor up, wrapping from the top line to the bottom.
    Up,
    /// Move the cursor down, wrapping from the bottom line to the top.
    Down,
    /// Choose the line under the cursor.
    Enter,
}

/// What the list dialog does after one key.
#[derive(Debug, PartialEq, Eq, Structural)]
pub enum NavOutcome {
    /// Keep reading keys, with the cursor on this line.
    Continue(usize),
    /// The dialog is over: the header (line zero) selects nothing, any other
    /// line is the selection.
    Finished(Option<usize>),
}

/// One step of the list dialog. `cursor` is the line the cursor is on and
/// `max` the last line; up and down wrap around the ends, escape and any
/// printable key leave without a selection, and enter selects the cursor
/// line — except the header line, which selects nothing.
pub fn list_nav_step(cursor: usize, max: usize, key: NavKey) -> (r: NavOutcome)
    requires
        cursor <= max,
    ensures
        (match key {
            NavKey::Esc => r == NavOutcome::Finished(None::<usize>),
            NavKey::Other => r == NavOutcome::Finished(None::<usize>),
            NavKey::Up => r == NavOutcome::Continue(
                if cursor == 0 {
                    max
                } else {
                    (cursor - 1) as usize
                },
            ),
            NavKey::Down => r == NavOutcome::Continue(
                if cursor == max {
                    0
                } else {
                    (cursor + 1) as usize
                },
            ),
            NavKey::Enter => r == NavOutcome::Finished(
                if cursor == 0 {
                    None::<usize>
                } else {
                    Some(cursor)
                },
            ),
        }),
{
    match key {
        NavKey::Esc => NavOutcome::Finished(None),
        NavKey::Other => NavOutcome::Finished(None),
        NavKey::Up => NavOutcome::Continue(
            if cursor == 0 {
                max
            } else {
                cursor - 1
            },
        ),
        NavKey::Down => NavOutcome::Continue(
            if cursor == max {
                0
            } else {
                cursor + 1
            },
        ),
        NavKey::Enter => NavOutcome::Finished(
            if cursor == 0 {
                None
            } else {
                Some(cursor)
            },
        ),
    }
}

/// Wherever the cursor stands, it stays within the list: one navigation
/// step from a valid line lands on a valid line.
pub proof fn lemma_nav_stays_in_range(cursor: usize, max: usize, key: NavKey)
    requires
        cursor <= max,
    ensures
        (match key {
            NavKey::Up => (if cursor == 0 {
                max as int
            } else {
                cursor - 1
            }) <= max as int,
            NavKey::Down => (if cursor == max {
                0
            } else {
                cursor + 1
            }) <= max as int,
            _ => true,
        }),
{
}

} // verus!
