//! Task management core: the task record, the persistence interface with an
//! in-memory store behind it, the business rules of the service layer, and the
//! mapping of outcomes to HTTP replies.

pub mod error;
pub mod infrastructure;
pub mod models;
pub mod repositories;
pub mod routes;
pub mod usecase;
