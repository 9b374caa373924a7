//! Supervision of a single backend process started by a desktop host:
//! where its files live, how it is launched, and how it is shut down.
pub mod launch;
pub mod layout;
pub mod process;
