//! Decision logic of a draw-result watcher: it reads the JSON answers of a
//! draw website, spots the result patterns that deserve a notification,
//! plans the waiting and polling of each draw round, and builds the
//! requests that the program around it sends.

pub mod analysis;
pub mod canada;
pub mod common;
pub mod draws;
pub mod json;
pub mod laws;
pub mod message;
pub mod request;
pub mod schedule;
pub mod startup;
pub mod text;
