//! A small memo pad: the memo table, the decisions of its request handlers
//! and the pages they answer with.

pub mod handlers;
pub mod laws;
pub mod models;
pub mod server;
pub mod views;
