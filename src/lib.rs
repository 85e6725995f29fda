//! A tutoring course catalog: the error taxonomy of its HTTP service, the
//! course records, an in-memory store that follows the data access contract,
//! the decisions that turn a relational store's answers into that contract,
//! the request handlers that sit on top of it, the records and addresses of
//! the web front end, and the laws that the store and handlers obey.

pub mod dbaccess;
pub mod errors;
pub mod models;
pub mod catalog;
pub mod handlers;
pub mod frontend;
pub mod laws;
pub mod text;
