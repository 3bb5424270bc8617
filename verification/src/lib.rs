//! A splash/loading-screen overlay, modelled exactly.
//!
//! The library builds the overlay's visual tree (progress bar, a block-letter
//! word, a pulsing symbol) as a scene graph of tagged rectangle nodes, and
//! computes the two per-frame update rules: the progress-bar fill from a
//! `(done, total)` counter, and the symbol's rotation and scale from elapsed
//! time.  All geometry is exact rational arithmetic; a host converts the
//! rationals to floating point when it draws.

pub mod bar;
pub mod builder;
pub mod frac;
pub mod glyphs;
pub mod layout;
pub mod plugin;
pub mod progress;
pub mod scene;
pub mod symbol;
