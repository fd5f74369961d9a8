//! The decisions around a run of the Floating IPS patch tool.
//!
//! The tool is a program of its own, and running it is left to the caller.
//! What this crate settles is everything before and after the run:
//!
//! * [`FlipsWrapper::plan_create_patch`] and [`FlipsWrapper::plan_apply_patch`]
//!   say whether there is anything to run, and with which arguments;
//! * [`map_result`] and [`try_map_result`] turn the exit code and the bytes
//!   that the process wrote into an [`Output`] or a [`FlipsError`].

pub mod arguments;
pub mod lines;
pub mod outcome;
pub mod patch_type;
pub mod string_specs;
pub mod wrapper;

pub use crate::lines::{split_lines, try_vec_u8_to_vec_string, vec_u8_to_vec_string};
pub use crate::outcome::{map_result, try_map_result, Captured, FResult, FlipsError, Output};
pub use crate::patch_type::PatchType;
pub use crate::wrapper::{FlipsWrapper, Invocation};
