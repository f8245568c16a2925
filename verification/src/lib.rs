//! A minimal reactive core: mutable, observable value cells and read-only
//! derived signals computed from them by a pure transformation.
//!
//! Cells and signals are handles into a central owning [`cell::Runtime`],
//! which avoids the ownership cycles of a pointer-based design: a cell may
//! be shared by any number of derived signals and consumers, and a write
//! through one handle is visible to every later read through any other.

pub mod cell;
pub mod signal;
