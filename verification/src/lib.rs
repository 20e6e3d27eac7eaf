//! Verified core of a bounded-concurrency course crawler: chunked ID
//! enumeration, a resolver decision tree, a cancellation-aware batch engine,
//! per-batch export with contiguous renumbering, and a post-hoc merger.
pub mod book;
pub mod crawl;
pub mod enumerate;
pub mod item;
pub mod merge;
pub mod numfmt;
pub mod resolve;
pub mod run;
pub mod timefmt;
