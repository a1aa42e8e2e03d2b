//! A value type for Win32 error codes and their system descriptions.
//!
//! The operating system is asked for the message text elsewhere; this crate
//! holds everything that happens to the answer: how much of the returned text
//! is kept, how it is decoded, and how the resulting value is read, compared,
//! converted and rendered.

pub mod code;
pub mod decimal;
pub mod error;
pub mod lookup;
pub mod trim;
pub mod utf16;

pub use crate::code::CodeInteger;
pub use crate::error::{init_from_error_code, Win32Error, Win32Result};
pub use crate::lookup::{message_buffer, message_request, MessageRequest};
