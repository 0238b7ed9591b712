//! What the backends have in common: how the outcome of a request to
//! activate or to stack windows is read.

use vstd::prelude::*;
use crate::command::{CommandOutcome, lossy_text, text_of, chain, all_started, every_started};
use crate::error::{BackendError, ErrorKind, ErrorModel};

verus! {

/// The failure of the kind with the text.
pub open spec fn failure(kind: ErrorKind, text: Seq<char>) -> ErrorModel {
    ErrorModel { kind, text }
}

/// Whether a window was activated, from the outcome of the request: it was
/// if the tool ran and reported success; otherwise the failure carries what
/// the tool wrote to its error stream.
pub open spec fn activation(outcome: CommandOutcome) -> Result<(), ErrorModel> {
    match outcome {
        CommandOutcome::NotStarted => Err(
            failure(ErrorKind::Activation, "Failed to activate window"@),
        ),
        CommandOutcome::Finished(out) => if out.success {
            Ok(())
        } else {
            Err(
                failure(
                    ErrorKind::Activation,
                    "Failed to activate window: "@ + lossy_text(out.stderr@),
                ),
            )
        },
    }
}

/// Whether windows were stacked, from the outcomes of all the requests:
/// they were unless a request could not be made at all. What a tool that
/// ran reported does not count.
pub open spec fn stacking(outcomes: Seq<CommandOutcome>) -> Result<(), ErrorModel> {
    if all_started(outcomes) {
        Ok(())
    } else {
        Err(failure(ErrorKind::Activation, "Failed to move window"@))
    }
}

/// The failure to tell which window has the focus.
pub open spec fn no_active_window() -> ErrorModel {
    failure(ErrorKind::NoActiveWindow, "No active window found"@)
}

/// Reads the outcome of a request to activate a window.
pub fn read_activation(outcome: &CommandOutcome) -> (r: Result<(), BackendError>)
    ensures
        match r {
            Ok(_) => activation(*outcome) is Ok,
            Err(e) => activation(*outcome) == Err::<(), ErrorModel>(e@),
        },
{
    match outcome {
        CommandOutcome::NotStarted => Err(
            BackendError::Activation("Failed to activate window".to_owned()),
        ),
        CommandOutcome::Finished(out) => {
            if out.success {
                Ok(())
            } else {
                let diagnostic = text_of(&out.stderr);
                Err(
                    BackendError::Activation(
                        chain("Failed to activate window: ", diagnostic.as_str()),
                    ),
                )
            }
        },
    }
}

/// Reads the outcomes of the requests that stack windows.
pub fn read_stacking(outcomes: &Vec<CommandOutcome>) -> (r: Result<(), BackendError>)
    ensures
        match r {
            Ok(_) => stacking(outcomes@) is Ok,
            Err(e) => stacking(outcomes@) == Err::<(), ErrorModel>(e@),
        },
{
    if every_started(outcomes) {
        Ok(())
    } else {
        Err(BackendError::Activation("Failed to move window".to_owned()))
    }
}

} // verus!
