pub mod cex;
pub mod classifier;
pub mod cli;
pub mod curve;
pub mod export;
pub mod mev;
pub mod pair;
pub mod parser;
pub mod primitives;
pub mod rational;
pub mod stats;
pub mod tree;
pub mod util;
