//! Turns print settings into the command line of a slicing tool and decides
//! the order of the steps that convert a drawing into machine instructions.
//!
//! The library touches no file and starts no program: `pipeline` names each
//! step and what follows it, and the caller carries the steps out.

pub mod fills;
pub mod options;
pub mod percent;
pub mod pipeline;
pub mod text;

pub use fills::Fills;
pub use options::SlicerOptions;
pub use percent::Percent;
pub use pipeline::{advance, plan, Action, Outcome, Progress, Stage};
