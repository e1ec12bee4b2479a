//! Adapters that change how a writer writes.

pub mod assertion;
