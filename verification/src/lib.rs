//! Locating the Windows resource compiler.
//!
//! The library decides *where to look* for `rc.exe` and *in which order*; it
//! never touches the registry, the file system or the environment itself.
//! Every question about the host is a [`discovery::Query`], and the answer
//! is fed back into the [`discovery::Discovery`] state machine, step by step
//! or through [`discovery::find_windows_sdk_tool_impl`].
//!
//! What discovery finds is defined on a mathematical model of the host in
//! [`host`]; [`machine`] holds the machine's transition and the proof that a
//! run of it on a host ends with exactly that.

pub mod arch;
pub mod path;
pub mod host;
pub mod machine;
pub mod discovery;
pub mod augment;
pub mod invoke;
