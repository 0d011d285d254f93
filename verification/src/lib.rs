//! Protocol core of a sidecar that runs zsh commands for a host.
//!
//! The host speaks JSON-RPC, one message a line. It asks for a command to be started; the sidecar
//! asks back whether the command may run, starts it once that is granted, and reports its output
//! and its end. While the command runs, each subcommand is held up by an exec wrapper, a process
//! that asks the sidecar over a socket; the sidecar passes the question on to the host.
//!
//! Everything here computes: [`session`] and [`wrapper`] take what happened and give back what to
//! say and to do. Reading, writing, starting processes and waiting is left to the program around.

pub mod approval;
pub mod chunk;
pub mod decode;
pub mod environment;
pub mod error;
pub mod history;
pub mod json;
pub mod message;
pub mod message_laws;
pub mod params;
pub mod reading_laws;
pub mod session;
pub mod session_laws;
pub mod text;
pub mod text_laws;
pub mod token;
pub mod view_laws;
pub mod wrapper;
pub mod wrapper_json;
pub mod wrapper_laws;
