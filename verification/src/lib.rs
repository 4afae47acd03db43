//! Provider configuration store for a command-line credential switcher.
//!
//! A `Provider` names an API endpoint together with the secret token and the
//! optional model override that a session should use.  The `Config` store
//! keeps the set of providers and the single selected one, and enforces that
//! the selection always names an existing provider.  The store persists to a
//! text file whose encoder and parser live in `codec`, environment-variable
//! materialization lives in `envsync`, the user-facing operations in `ops`,
//! and the interactive list screen's input state machine in `tui`.

pub mod codec;
pub mod config;
pub mod envsync;
pub mod ops;
pub mod strutil;
pub mod tui;
