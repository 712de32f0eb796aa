pub mod bootstrap;
pub mod container;
pub mod dialog;
pub mod dockerfile;
pub mod errors;
pub mod image;
pub mod network;
pub mod run;
pub mod text;

use vstd::prelude::*;

verus! {

/// Environment variable through which the orchestrator tells a relaunched
/// process which per-container task it owns.
pub const RUNNER_ENV_VAR: &'static str = "__RUNNER_ENV";

} // verus!

