//! Core of a tray-driven desktop assistant.
//!
//! Three concerns live here, each verified:
//! - framing a streamed response body into trimmed, newline-delimited lines
//!   ([`framer`]), together with the relay state machine that drives one
//!   streaming request ([`relay`]);
//! - a window-session model that keeps at most one window per logical role
//!   and decides show/hide transitions ([`windows`]);
//! - the character-level trimming those components share ([`text`]).
//!
//! Host-facing work (the actual HTTP client, window system and tray) is done
//! by a thin unverified shell that feeds events into these types and carries
//! out the commands they return.

pub mod framer;
pub mod relay;
pub mod text;
pub mod windows;
