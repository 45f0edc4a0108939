//! MEV bundles and their composition into the block's result.

pub mod composer;
pub mod header;
pub mod inspector;
pub mod rules;
pub mod sorted;
pub mod totals;
pub mod types;
