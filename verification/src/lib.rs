//! The request pipeline of a read-only lookup service over a directory of
//! user records.
//!
//! A request is read into a query, the query is run once by whoever holds
//! the store, and what the store gave is rendered into a response:
//!
//! - [`key`] decodes the composite key `<name>_<grade>` of a search;
//! - [`filters`] reads the optional filter of a search;
//! - [`ident`] reads and writes the identifier of a record;
//! - [`query`] composes the parameterized queries;
//! - [`request`] holds the two steps of each request, before and after the
//!   store;
//! - [`response`] renders each outcome with its status, headers and body;
//! - [`directory`] is a store held in memory, and [`service`] runs whole
//!   requests over it;
//! - [`counter`] counts the visits;
//! - [`user`] and [`text`] hold the records and the handling of text.

pub mod counter;
pub mod directory;
pub mod filters;
pub mod ident;
pub mod key;
pub mod query;
pub mod request;
pub mod response;
pub mod service;
pub mod text;
pub mod user;
