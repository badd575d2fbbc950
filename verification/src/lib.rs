//! Event-driven index synchronization.
//!
//! The heart of the crate is the verified model of the loop that keeps a
//! search index in step with documents announced over a message bus: it
//! consumes stored-document notifications, coordinates fetch, parse, index
//! and commit, multiplexes a periodic sync timer and an administrative
//! command channel, and maintains an observable status. The surrounding
//! modules hold the search result summaries and navigation targets of the
//! query front end.

pub mod indexer;
pub mod navigation;
pub mod package_info;
pub mod packages;
pub mod search;
pub mod status;
