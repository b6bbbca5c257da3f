//! Verified core of the newsroom scoring service: request planning,
//! query construction, tokenizing, and result assembly.

pub mod text;
pub mod stop_words;
pub mod web;
pub mod counting;
pub mod embedding;
pub mod handler;
pub mod laws;
pub mod scoring_model;
pub mod query_laws;
