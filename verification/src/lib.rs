//! Reachability assertions: claims that a program point is never executed.
//!
//! [`OptionExt`] and [`ResultExt`] unwrap a container under such a claim. The
//! claim is a precondition, so the verifier discharges it at every call site
//! and the branch for the other variant is dead in verified code.
//!
//! [`mode`] describes how a claim is enforced in a compiled artifact, as a
//! function of the switches the build was made with.

pub mod ext;
pub mod mode;

pub use ext::{OptionExt, ResultExt};
pub use mode::{BuildConfig, BuildMode, Failure};
