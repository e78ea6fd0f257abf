//! A local credential store: account entries kept in one plaintext file,
//! the commands that read and change them, and a generator of strong
//! passwords.
//!
//! The library decides; its caller performs. Every command is a function from
//! the store and the replies given so far to the next [`command::Action`]:
//! what to print, what to ask, what to write back to the file. Reading lines,
//! touching the file and the clipboard are left to the caller.

pub mod codec;
pub mod command;
pub mod entry;
pub mod password;
pub mod pools;
pub mod prompt;
mod random;
pub mod store;
pub mod table;
pub mod text;
