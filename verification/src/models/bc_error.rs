//! The player's error taxonomy. Fatal errors end the process after a clean
//! terminal teardown; `Cancel` is local to a dialog and never terminates.

use vstd::prelude::*;

verus! {

/// Why an operation of the player gave up.
#[derive(Clone, Copy, Debug, PartialEq, Eq, Structural)]
pub enum BcradioError {
    /// The user forcibly aborted a selection; fatal.
    OperationInterrupted,
    /// A selection produced a URL the player cannot use.
    InvalidUrl,
    /// The user escaped out of a selection; the caller retries or falls back.
    Cancel,
    /// An orderly quit.
    Quit,
    /// The remote host could not be resolved.
    CouldntResolveHost,
    /// A payload did not hold what the player expected of it.
    PhaseError,
}

impl BcradioError {
    /// The message shown for this error.
    pub fn message(&self) -> (r: String)
        ensures
            r@ == self.spec_message(),
    {
        match self {
            BcradioError::OperationInterrupted => "Operation Interrupted".to_owned(),
            BcradioError::InvalidUrl => "Invalid URL".to_owned(),
            BcradioError::Cancel => "Canceled".to_owned(),
            BcradioError::Quit => "Quit".to_owned(),
            BcradioError::CouldntResolveHost => "Could not resolve host".to_owned(),
            BcradioError::PhaseError => "Phase error".to_owned(),
        }
    }

    /// The message shown for this error.
    pub open spec fn spec_message(self) -> Seq<char> {
        match self {
            BcradioError::OperationInterrupted => "Operation Interrupted"@,
            BcradioError::InvalidUrl => "Invalid URL"@,
            BcradioError::Cancel => "Canceled"@,
            BcradioError::Quit => "Quit"@,
            BcradioError::CouldntResolveHost => "Could not resolve host"@,
            BcradioError::PhaseError => "Phase error"@,
        }
    }
}

} // verus!
