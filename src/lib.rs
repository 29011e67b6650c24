//! Moves recorded tours from a route-planning service (the source) to a
//! training log (the destination): paging through the source's tour list,
//! transferring each tour's route file, and polling until every upload settles.
//!
//! The library decides and computes over plain values: which page to list,
//! which tour to start, what to submit, whether to poll again. The network,
//! the clock and the event loop that drives these machines live with the caller.

mod text;
pub mod time;
pub mod config;
pub mod source;
pub mod upload;
pub mod poller;
pub mod pages;
pub mod outcome;
pub mod transfer;
pub mod sync;
pub mod run;
