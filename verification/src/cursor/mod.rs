//! Native cursor capture: hiding the cursor, pinning it to a centre point and
//! reading relative movement from it.
//!
//! The operating system does the work; what is decided here is which call comes
//! next, where the cursor has to go and what movement a position stands for.

pub mod center;
pub mod linux;
pub mod macos;
pub mod polling;
pub mod session;
pub mod windows;
