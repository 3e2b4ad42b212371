//! A verified data-management backend for a timber yard: validated CRUD and
//! query operations over two record kinds (timber inventory items and sale
//! transactions), backed by a durable ordered map per kind and a shared
//! durable counter that mints unique identifiers.
pub mod codec;
pub mod laws;
pub mod query;
pub mod records;
pub mod service;
pub mod storage;
pub mod text;
