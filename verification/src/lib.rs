//! A data-access layer for a catalogue of bands and songs.
//!
//! Storage rows are mapped to string-keyed records, a provider interface
//! separates callers from the backend that holds the rows, and the request
//! logic (filter choice, pagination, partial update, existence checks) is
//! stated and proved over a mathematical model of the two tables.
//!
//! - [`models`]: rows, records and the mapping from one to the other.
//! - [`payload`]: the payloads of creation and update, read from JSON.
//! - [`catalog`]: the two tables as mathematical values, with their laws.
//! - [`db_provider`]: the provider interface and what each operation owes.
//! - [`mutation`]: creation, update and deletion as a dialogue with the store.
//! - [`memory`]: a provider that keeps the tables in memory.
//! - [`db_manager`]: the facade in front of one provider.
//! - [`paging`]: pages of a result set.
//! - [`router`]: the replies to the six requests.
//! - [`text`]: decimal text for ids and page parameters.

pub mod catalog;
pub mod db_manager;
pub mod db_provider;
pub mod memory;
pub mod models;
pub mod mutation;
pub mod paging;
pub mod payload;
pub mod router;
pub mod text;
