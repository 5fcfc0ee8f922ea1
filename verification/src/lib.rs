//! A verified model of an arithmetic-circuit composition protocol.
//!
//! Reusable gate chips (add, multiply) each contribute one selector-gated
//! polynomial identity to a shared proving table; a composite circuit wires
//! them together to compute `a*x^2 + b*x` from a private witness `x` and
//! public constants loaded from an instance column, and exposes the result
//! back as a public output.  The library models the table, the region
//! allocator, the equality (copy) constraints and the instance bindings as
//! plain verified data, states each operation's exact layout in its
//! contract, and proves the soundness laws of the gates.

pub mod add;
pub mod checker;
pub mod field;
pub mod laws;
pub mod mul;
pub mod solution;
pub mod system;
pub mod table;
