//! The source control panel of a code editor: the list of changed files with
//! their staging checkboxes, its keyboard commands, its two-phase
//! click-to-toggle gesture, and what the list paints.
use vstd::prelude::*;

pub mod color;
pub mod delegate;
pub mod file_list;
pub mod laws;
pub mod paint;
pub mod source_control;
pub mod state;

verus! {

} // verus!
