//! A fixed-size worker-pool task dispatcher. Jobs are submitted to a FIFO
//! dispatch channel and delivered exactly once each to one of N workers; a
//! two-phase teardown stops every worker without losing a queued job. The
//! dispatcher's contracts live in [`channel`], [`worker`] and [`pool`];
//! around it sit a number of small example modules.

pub mod art;
pub mod blog;
pub mod channel;
pub mod closet;
pub mod fallible;
pub mod guess;
pub mod lifetimes;
pub mod manager;
pub mod nation;
pub mod news;
pub mod numbers;
pub mod ownership;
pub mod points;
pub mod pool;
pub mod rect;
pub mod restaurant;
pub mod screen;
pub mod site;
pub mod tracker;
pub mod words;
pub mod worker;
