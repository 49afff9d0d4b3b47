//! Extraction of a flat parameter registry from a hierarchical control
//! surface, and deterministic rendering of that registry as source
//! text.
//!
//! The crate has two halves, used one after the other:
//! - [`collector`]: a visitor with one capability per node kind of the
//!   control-surface tree; an external tree walk drives it and it
//!   keeps, in traversal order, exactly the numeric controls it was
//!   shown.
//! - [`emit`]: a pure function from the collected control list and a
//!   struct name to the generated registry text, with identifier
//!   legality and collision checking.
//!
//! Numeric metadata (defaults and ranges) is carried as a whole number
//! of tenths, matching the fixed one-decimal formatting policy of the
//! generated text.

pub mod collector;
pub mod controls;
pub mod emit;
pub mod ident;
pub mod text;
