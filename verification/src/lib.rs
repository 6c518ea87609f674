//! A marker for values that must be disposed of by hand.
//!
//! [`Relevant`] is a zero-sized field that turns "this value has to be given
//! back" from a comment into an obligation: whoever owns a value that holds
//! one has to take it apart and call [`Relevant::dispose`].
//!
//! What happens to a marker that is dropped instead is decided in [`policy`]:
//! a [`Policy`] maps the state of the thread to a [`Reaction`]. The decisions
//! are proved here; a destructor that carries them out stands outside of this
//! crate, since it may unwind.

pub mod marker;
pub mod policy;

pub use marker::Relevant;
pub use policy::{Policy, Reaction, MESSAGE};
