//! Feed polling and ingestion.
//!
//! Sources are remote feeds that are polled on a schedule. Each poll reads
//! the feed, looks up a thumbnail for every entry, keeps the entries that
//! are new enough, and stores them with their tags, one item per link.
//!
//! The library decides and computes; it does no input or output. The
//! [`poller`] is a state machine that hands out one request at a time and
//! takes the response to it: whoever drives it talks to the network, the
//! store and the clock. What the poller asks for is computed by the other
//! modules:
//!
//! - [`feed`] reads a feed document, [`thumbnail`] finds the image that a
//!   page names, [`time`] reads dates and measures the time between polls;
//! - [`enrich`] says what each entry of a feed contributes, [`ingest`] what
//!   is written for a polled source, [`tags`] how tag names are collected;
//! - [`db`] holds the rows of the store, its errors, and the statements
//!   that read and write them;
//! - [`store`] states what the poller relies on in the store, and proves
//!   what a poll leaves behind: polling again inserts nothing, and a new
//!   item is linked to exactly its own tags and its source's.
//!
//! [`preview`], [`crud`], [`auth`], [`config`] and [`error`] hold what the
//! service around the poller computes.

pub mod auth;
pub mod config;
pub mod crud;
pub mod db;
pub mod enrich;
pub mod error;
pub mod feed;
pub mod ingest;
pub mod poller;
pub mod preview;
pub mod store;
pub mod tags;
pub mod text;
pub mod thumbnail;
pub mod time;

pub use error::ApiError;
pub use poller::PollMessage;
