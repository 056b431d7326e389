//! A cell that keeps a handle to a shared value in one of three retention
//! modes — owning ([`Strong`]), non-owning but revivable ([`Weak`]), or
//! empty — and lets callers cheaply toggle between them.
//!
//! The cell is meant for caches, object graphs and back-pointers where some
//! owners must keep an object alive while others hold only a revivable
//! reference that can be dropped under memory pressure and re-acquired
//! later if the object is still alive elsewhere. All legal transitions of
//! the cell, and what each operation yields, are stated as contracts over
//! the cell's abstract [`State`] and proved.

pub use std::sync::Arc as Strong;

pub mod cell;
pub mod handle;
pub mod laws;
pub mod state;

pub use cell::RCell;
pub use cell::Replace;
pub use handle::Weak;
pub use state::State;
