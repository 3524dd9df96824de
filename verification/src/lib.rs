//! Trust boundary between a desktop shell and the backend service it launches.
//!
//! The shell hands the backend a fresh secret through a private temporary file,
//! supervises the backend process, and talks to it over loopback HTTP. This
//! crate holds the decisions of that handshake; the caller performs the file,
//! process and network operations that the decisions ask for.
//!
//! - `secret`: the token of a launch and other random text.
//! - `address`: the backend's base URL, and which overrides of it are taken.
//! - `token_file`: the file that carries the token to the backend.
//! - `supervisor`: start and stop of the backend process.
//! - `client`: settings of the HTTP client that carries the token.
//! - `validate`: the shape of account identifiers.
//! - `query`: free text in query strings.
//! - `api`: the requests behind each operation of the shell.
//! - `reply`: what the backend's answers mean to the user.
//! - `text`: small helpers on text.

pub mod address;
pub mod api;
pub mod client;
pub mod query;
pub mod reply;
pub mod secret;
pub mod supervisor;
pub mod text;
pub mod token_file;
pub mod validate;
