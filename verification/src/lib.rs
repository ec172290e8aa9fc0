//! Podcast feed ingestion: from what was fetched for a feed to an ordered
//! list of playable episodes, with every rule stated as a contract.
//!
//! [`loader`] judges what was fetched, [`reader`] reads the text as XML into
//! the document model of [`xml`], and [`feed`] takes the episodes out of the
//! document. What holds of every document is proved in [`laws`]. The other
//! modules hold what a player computes around its feeds: the records of its
//! store in [`db`], the steps of its controller in [`controller`], the
//! selection of its lists in [`state`] and its playing times in [`player`].

pub mod controller;
pub mod db;
pub mod feed;
pub mod laws;
pub mod loader;
pub mod player;
pub mod reader;
pub mod state;
pub mod text;
pub mod xml;
