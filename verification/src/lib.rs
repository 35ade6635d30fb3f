//! Typed extraction of product, price and rating data from marketplace HTML.
//!
//! The pages are inconsistent, localized and now and then changed to resist
//! automated reading. The library turns a document and a region into typed
//! records or a typed failure: it recognizes block pages before it trusts
//! anything on them, looks every field up through an ordered list of
//! alternative rules, reads numbers by the region's conventions, and drops a
//! malformed listing without giving up the page.

pub mod amazon;
pub mod commands;
pub mod config;
pub mod decimal;
pub mod filters;
pub mod format;
pub mod text;
pub mod tropical;

pub use amazon::models::{Price, PriceRange, Product, Rating};
pub use amazon::regions::Region;
pub use config::Config;
pub use decimal::Decimal;
