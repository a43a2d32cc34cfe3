//! Catalog maintenance for a media collection: the decisions of the re-index
//! coordinator, of one update cycle and of its stages, stated over plain values.

pub mod records;
pub mod inserter;
pub mod traverser;
pub mod collector;
pub mod cleaner;
pub mod index;
pub mod update;
pub mod user;
pub mod ddns;
