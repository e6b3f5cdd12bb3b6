//! A user resource service: the rules of a small web backend that stores
//! users in a relational table and renders them as HTML.
//!
//! The library decides and computes; it performs no I/O. Every exchange with
//! the database is described as a [`repository::Action`] that the caller
//! performs, answering with a [`repository::Event`]. What is proved of a
//! request from start to end is proved over the table of [`store`].

pub mod date_custom;
pub mod error;
pub mod html_response;
pub mod http_default;
pub mod laws;
pub mod page;
pub mod pagination;
pub mod password;
pub mod repository;
pub mod sanitize;
pub mod store;
pub mod text;
pub mod user;
pub mod user_id;
pub mod user_resource;
pub mod user_status;
