//! A product catalog kept consistent across product types, products and their
//! images.
//!
//! - `pagination`, `listing`: the pages of a listing, their statements and
//!   how a page is put together from the answers.
//! - `image_store`, `upload`: where image files lie, and the forms that
//!   bring them.
//! - `sql`, `rows`, `tables`, `store`: the statements against the three
//!   tables, what each does, and a store that keeps the tables in memory.
//! - `transaction`, `runner`, `effects`: a write as a sequence of steps
//!   inside one transaction, and what it leaves behind.
//! - `handlers`, `response`: the endpoints and their answers.
//! - `laws`: what holds of the catalog whatever it holds.
//! - `client`, `proxy`: the caller's side of the service.

pub mod client;
pub mod effects;
pub mod handlers;
pub mod image_store;
pub mod laws;
pub mod listing;
pub mod models;
pub mod pagination;
pub mod proxy;
pub mod response;
pub mod rows;
pub mod runner;
pub mod seqs;
pub mod sql;
pub mod store;
pub mod tables;
pub mod text;
pub mod transaction;
pub mod upload;
