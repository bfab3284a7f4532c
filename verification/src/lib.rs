//! The host side of a PostgreSQL client binding.
//!
//! Every operation of such a binding is a call into the native client
//! library with something in front of it and something behind it: text is
//! marshalled on the way out, and a return value, a pointer that may be null
//! or a run of bytes is read on the way back. This crate is what stands in
//! front and behind. It makes no native call and does no input or output: it
//! says what to hand over and what the answer means, and it is verified.
//!
//! - [`marshal`]: outbound text with its zero-byte check, inbound text with
//!   permissive decoding.
//! - [`status`]: the native status numbers under their names.
//! - [`conn`]: the connection: connection string, commands, consumed input.
//! - [`socket`]: a wait on the socket: deadline, flags, outcome.
//! - [`listen`]: the notification loop as a machine of phases and events.
//! - [`notify`]: one notification.
//! - [`result`]: one result: status, fields, messages, the print request.

pub mod conn;
pub mod listen;
pub mod marshal;
pub mod notify;
pub mod result;
pub mod socket;
pub mod status;

pub use conn::PgConn;
pub use listen::{ListenAction, ListenEvent, ListenLoop, ListenPhase};
pub use marshal::{CText, FileTarget, MarshalError};
pub use notify::PgNotify;
pub use result::{PgResult, PrintOptions, PrintRequest};
pub use socket::{PgSocket, PgSocketPollResult, PollRequest};
pub use status::{ConnStatus, ExecStatus};
