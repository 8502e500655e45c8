//! Core engine of a filesystem change watcher.
//!
//! The engine keeps the two pieces of state a watcher needs besides its
//! OS-level subscription: the admission filter (which exact paths, if any, a
//! raw change must touch to be kept) and the FIFO queue of admitted events.
//! A hosting layer wires it to a platform notification primitive: it hands
//! every raw delivery to [`watcher::Watcher::handle_raw_event`], fires one
//! readiness signal whenever that returns `true`, and performs the
//! subscriptions that the registration calls plan.

pub mod event;
pub mod laws;
pub mod paths;
pub mod watcher;
