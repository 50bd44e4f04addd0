//! Stop selection, trip queries and tolerant trip parsing for a terminal
//! client of a regional bus service.

pub mod date;
pub mod error;
pub mod event;
pub mod expeditions;
pub mod fetch;
pub mod flow;
pub mod json;
pub mod stateful_list;
pub mod stops;
pub mod strings;
pub mod timestamps;
