//! Price comparison across the European stores, read from the pages of a
//! comparison site.

pub mod models;
pub mod parser;
pub mod report;

pub use models::{country_flag, CountryPrice, PriceComparison, TropicalProduct};
