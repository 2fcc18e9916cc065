//! The endpoints of the catalog, served from the tables in memory.

pub mod product_type;
pub mod products;
