//! A small in-memory key-value store and the request handling of a
//! key-value HTTP service built on it: which requests succeed, what they do
//! to the store and with which status they are answered.
pub mod laws;
pub mod routes;
pub mod store;
