//! Watch a local git repository, keep it in sync with its upstream, and run
//! user-defined commands whenever the working copy advances.
//!
//! The crate is built from **triggers**, **checks** and **actions**: triggers
//! emit events, a check decides whether the repository can advance and
//! performs the fast-forward, and actions are the side effects that run on a
//! successful update.  A [`context::Context`] value carries metadata from the
//! trigger through the check into the actions.

/// The context map which shares data between triggers, checks and actions.
pub mod context;

/// Parsing a user command string into an invocation.
pub mod command;

/// Actions that run when a check reports changes.
pub mod actions;

/// Checks that decide whether there are changes and apply them.
pub mod checks;

/// Triggers that initiate checks.
pub mod triggers;

/// The main event loop tying triggers, the check and the actions together.
pub mod start;

/// A minimal repository abstraction kept for test doubles.
pub mod repository;

/// Command line trigger arguments.
pub mod args;
