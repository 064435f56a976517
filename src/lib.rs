//! A program handler that stores a UTF-8 text payload at the start of the
//! first account's data buffer, after checking the payload's encoding, the
//! account's writability and the buffer's capacity.

pub mod account;
pub mod handler;
pub mod laws;
mod text;

pub use account::{Account, AccountState};
pub use handler::{process_instruction, HandlerError};
