//! Storage core of a paste service: the category codec, the paste record and
//! its stored row, the versioned schema of the store, and the decisions that
//! turn the driver's reports into results for the service's callers.
pub mod category;
pub mod paste;
pub mod schema;
pub mod service;
pub mod store;
