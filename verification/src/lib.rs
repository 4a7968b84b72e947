//! A gateway between one HTTP control plane and the bots of several
//! messaging platforms.
//!
//! This crate holds what the gateway decides: which bots a command goes to
//! (`wrapper`), which webhook a reply triggers (`handlers`), which messages
//! of a polled conversation are new (`bot::telegram`), and in which order
//! commands are taken up (`queue`). Talking to a platform, to the operator and
//! to the network is left to the caller, who is told at each step what to do
//! next.

pub mod api;
pub mod bot;
pub mod handlers;
pub mod json;
pub mod queue;
pub mod str_map;
pub mod structs;
pub mod text;
pub mod utils;
pub mod wrapper;
