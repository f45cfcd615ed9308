//! Ownership and outcome rules for a native media filter graph: which value
//! owns each native graph and filter handle, what destroying a value must give
//! back to the engine, and what each native status code means.

pub mod error;
pub mod filter;
pub mod graph;
pub mod ownership;
