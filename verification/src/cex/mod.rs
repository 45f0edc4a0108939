//! Pricing against centralized-exchange trade streams.

pub mod basket;
pub mod exchange;
pub mod fill;
pub mod laws;
pub mod optimistic;
pub mod price_map;
pub mod quality;
pub mod trades;
pub mod weight;
