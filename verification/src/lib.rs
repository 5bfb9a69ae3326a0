//! Rendering of one observed system call, as a trace line or as a structured record.
//!
//! A tracer hands over what it captured when a call returned: the process, the call, the
//! decoded arguments, the raw return value and the time the call took. This crate classifies
//! the return value, escapes and cuts byte buffers for display, and lays the call out either
//! as one line of text or as an ordered list of named fields.

pub mod arg;
pub mod escape;
pub mod info;
pub mod json;
pub mod numeral;
pub mod record;
pub mod retcode;
pub mod style;
pub mod syscall;

pub use crate::arg::{SyscallArg, SyscallArgs};
pub use crate::info::SyscallInfo;
pub use crate::record::{Elapsed, Entry, Field, Value};
pub use crate::retcode::RetCode;
pub use crate::style::{Style, StyleConfig};
pub use crate::syscall::Syscall;
