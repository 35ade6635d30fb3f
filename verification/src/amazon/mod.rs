//! The marketplace itself: its regions, the records read from its pages,
//! the selector catalog, the normalizer and the extraction pipeline.

pub mod client;
pub mod dom;
pub mod models;
pub mod normalizer;
pub mod parser;
pub mod regions;
pub mod selectors;

pub use client::AmazonClient;
pub use models::{Price, PriceRange, Product, Rating, SearchResults};
pub use parser::Parser;
pub use regions::Region;
