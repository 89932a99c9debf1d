//! Provisioning and supervision rules for a launcher that deploys a bundled
//! script tree into a per-user directory, has its dependencies installed
//! there, and then runs it as a supervised child process.
//!
//! The library decides and a driver acts: the driver performs each
//! [`protocol::Action`] that a machine issues and reports what happened as a
//! [`protocol::Event`]. The library itself touches no file and no process.
//! It asks the platform two things only: where the home directory of the
//! current user is, and where on the search path a tool lies.

pub mod path;
pub mod protocol;
pub mod guard;
pub mod launch;
pub mod resolve;
pub mod deploy;
