//! Event dispatch lists, the garbage-collected objects that hold them, and
//! the options of the player that runs them.
//!
//! * [`events`], [`invocation`] and [`propagation`] hold the rules of event
//!   dispatch on plain values: which listeners an event calls, in which
//!   order, and which objects it visits. [`event_lemmas`] states what holds
//!   of every list.
//! * [`object`], [`script_object`] and [`dispatch_object`] put dispatch lists
//!   on the garbage-collected heap, behind one handle for every kind of
//!   object; [`event_dispatcher`] runs an event over such objects. [`arena`]
//!   holds the calls into the collector, which are believed, not proved.
//! * [`builder`], [`config`], [`renderer`] and [`fonts`] hold the options
//!   that a host page sets before a player is built, and what follows from
//!   them.

pub mod arena;
pub mod builder;
pub mod config;
pub mod dispatch_object;
pub mod error;
pub mod event_dispatcher;
pub mod event_lemmas;
pub mod events;
pub mod fonts;
pub mod invocation;
pub mod object;
pub mod propagation;
pub mod renderer;
pub mod script_object;
pub mod text;
