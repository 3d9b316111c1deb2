//! The post entity, its responses, input rules and the post table.
pub mod input;
pub mod mutation;
pub mod post;
pub mod table;
