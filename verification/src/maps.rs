//! Level generators.

pub mod corridors;
