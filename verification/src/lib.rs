//! An in-memory registry of broadcast sessions.
//!
//! A presenter publishes a page under a session identifier, participants
//! answer it under their user identifiers, and the presenter reads or clears
//! the answers. Sessions that nobody has touched for a day are swept away.
//!
//! - [`ident`] validates the names of sessions and users, [`error`] names
//!   what can go wrong, and [`clock`] holds points in time.
//! - [`model`] is the mathematical model: a registry as a map, and what each
//!   request makes of it.
//! - [`registry`] is the registry itself, on validated names and given
//!   times; [`handlers`] are the requests as clients make them, on raw names
//!   and the system clock.
//! - [`laws`] states and proves what holds across several requests.
//! - [`keyed`] is the indexed list that the registry keeps its maps in.

pub mod clock;
pub mod error;
pub mod handlers;
pub mod ident;
pub mod keyed;
pub mod laws;
pub mod model;
pub mod registry;
