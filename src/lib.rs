//! Native hints for a memory-immutable virtual machine: a 256-bit unsigned
//! integer carried as two field elements, exact unsigned division on such
//! integers, and the classification of an address against fixed bounds.

pub mod bignat;
pub mod error;
pub mod uint256;
pub mod divider;
pub mod classifier;
pub mod registry;
