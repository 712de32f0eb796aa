//! The error taxonomy of a run: transport failures, non-zero container
//! exits, configuration faults, cleanup failures, and cancellation.
use vstd::prelude::*;

use crate::text::{fmt_i64, spec_decimal_i64};

verus! {

/// Why a run, or one of its operations, failed.
#[derive(Debug)]
pub enum RunError {
    /// The engine was unreachable or an RPC failed outright.
    Transport { message: String },
    /// A waited container exited with a non-zero status.
    ContainerExit { name: String, code: i64, message: String },
    /// A malformed environment value or an ordinal that names no task.
    Configuration { message: String },
    /// A failure while removing containers or the network.
    Cleanup { message: String },
    /// The run was cancelled by the external interrupt signal.
    Interrupted,
}

/// The one-line account of an error, as `describe` renders it.
pub open spec fn spec_describe(e: RunError) -> Seq<char> {
    match e {
        RunError::Transport { message } => "engine error: "@ + message@,
        RunError::ContainerExit { name, code, message } => "container "@ + name@
            + " exited with code "@ + spec_decimal_i64(code as int) + " "@ + message@,
        RunError::Configuration { message } => "configuration error: "@ + message@,
        RunError::Cleanup { message } => "cleanup error: "@ + message@,
        RunError::Interrupted => "interrupted"@,
    }
}

impl RunError {
    /// Renders the error as one line of plain text.
    pub fn describe(&self) -> (r: String)
        ensures
            r@ == spec_describe(*self),
    {
        match self {
            RunError::Transport { message } => {
                "engine error: ".to_owned().concat(message.as_str())
            },
            RunError::ContainerExit { name, code, message } => {
                let code_text = fmt_i64(*code);
                "container ".to_owned().concat(name.as_str()).concat(
                    " exited with code ",
                ).concat(code_text.as_str()).concat(" ").concat(message.as_str())
            },
            RunError::Configuration { message } => {
                "configuration error: ".to_owned().concat(message.as_str())
            },
            RunError::Cleanup { message } => {
                "cleanup error: ".to_owned().concat(message.as_str())
            },
            RunError::Interrupted => "interrupted".to_owned(),
        }
    }
}

} // verus!
