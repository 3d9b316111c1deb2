//! A small blog service: posts move from draft to published through a
//! query-and-mutation API, with request metrics and trace correlation.
pub mod database;
pub mod model;
pub mod observability;
pub mod routes;
pub mod text;
