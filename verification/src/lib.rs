//! A client library for an exchange-rate web service: request URLs, reply
//! decoding and the command loop's decisions.

pub mod amount;
pub mod api;
pub mod command;
pub mod document;
pub mod error;
pub mod json;
pub mod session;
pub mod text;
