//! Persistence core of a desktop task-list application: the configuration
//! record, the storage-directory state, the load rule for the two JSON
//! documents and the query on the lists document.
pub mod config;
pub mod laws;
pub mod lists;
pub mod store;
