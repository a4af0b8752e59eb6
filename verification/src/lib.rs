//! Session-management core of an X input-method server.
//!
//! The crate owns the decisions of the server: which rendering mode a
//! requested input style asks for, which per-session state is created and
//! destroyed, how a composition-engine outcome turns into protocol actions,
//! and the registry of live preedit surfaces. The wire transport, the
//! composition engine and the surface drawing are outside collaborators;
//! they hand plain values in and perform the returned actions.

pub mod action;
pub mod handler;
pub mod keyev;
pub mod outcome;
pub mod registry;
pub mod style;
pub mod utf8;
