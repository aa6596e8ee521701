//! Stateless bookkeeping for a bot that counts, once a day, how many distinct
//! authors misspelled a phrase, publishes the figure, and replies to offenders.
//!
//! Nothing is stored between runs: the previous figure and the resume point
//! are read back from what the bot itself published earlier.

pub mod calendar;
pub mod checkpoint;
pub mod codec;
pub mod cycle;
pub mod dispatch;
pub mod feed;
pub mod post;
pub mod reply;
pub mod report;
pub mod scanner;
pub mod text;
