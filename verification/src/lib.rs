//! Command dispatch engine for an interactive test-equipment shell.
//!
//! A user supplies a command token (possibly abbreviated) plus positional
//! arguments; the router resolves the token to exactly one registered
//! handler by literal prefix match, refusing ambiguous abbreviations, and
//! renders on-demand help text. Per-equipment modules validate arguments
//! and turn them into device actions; the actual device I/O is performed
//! by the surrounding binary.

pub mod dmm;
pub mod psu;
pub mod router;
pub mod text;
