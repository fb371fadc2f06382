//! Model data handling for the zino framework: JSON objects, validation,
//! field translations, the dataset model, model hooks and notification layout.
pub mod json;
pub mod identifier;
pub mod validation;
pub mod model;
pub mod query;
pub mod hook;
pub mod datetime;
pub mod dataset;
pub mod translation;
pub mod notification;
pub mod laws;
