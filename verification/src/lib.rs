//! The control header of the vhost-user GPU channel: the fixed twelve-byte
//! record that precedes every message between a GPU backend and a GPU
//! frontend, with its request codes, its flags and its wire layout.

pub mod bytes;
pub mod error;
pub mod flags;
pub mod header;
pub mod request;
pub mod validator;

pub use bytes::ByteOrder;
pub use error::Error;
pub use flags::{VhostUserGpuHeaderFlag, REPLY_BIT, VERSION_BIT};
pub use header::{HeaderFields, VhostUserGpuMsgHeader, HEADER_SIZE};
pub use request::{GpuBackendReq, Req};
pub use validator::VhostUserMsgValidator;
