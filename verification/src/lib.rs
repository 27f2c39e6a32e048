//! Session navigation for a workspace switcher: a browser-style history of
//! visited sessions, a resolver for the host's session/client snapshots, and
//! the control state machine that gates command dispatch on a permission
//! decision and on both identities being known.
pub mod control;
pub mod environment;
pub mod history;
