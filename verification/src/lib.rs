//! Locates the on-disk directories in which two package managers — cargo and
//! uv — store the tools a user has installed, by replicating their documented
//! environment-variable and platform-convention fallback chains, and counts
//! the tools found there.
//!
//! The resolution chains are pure functions of the environment values they
//! are handed; the calls that consult the live environment (the cargo home
//! lookup and the XDG base-directory strategies) go through small trusted
//! wrappers around the `home` and `etcetera` crates. Reading a directory
//! listing is left to the caller, who hands the entries back as plain values
//! for counting.

pub mod cargo;
pub mod counting;
pub mod paths;
pub mod uv;
