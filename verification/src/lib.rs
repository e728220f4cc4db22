//! A keyboard-remapping core: a virtual-key model, a chord registry that maps
//! an origin key combination to a target combination, a hook-engine state
//! machine that classifies native events, suppresses matched chords and
//! computes the synthetic events to inject, and a lock-guarded publisher of
//! the currently pressed keys for a display consumer.

pub mod keys;
pub mod keyset;
pub mod registry;
pub mod publisher;
pub mod engine;
