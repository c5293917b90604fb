pub mod display;
pub mod error;
pub mod invariants;
pub mod memory;
pub mod path;
pub mod sequence;
