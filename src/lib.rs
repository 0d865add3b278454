//! A small verified library. Its core is the bookkeeping of a fixed-size
//! worker pool (`pool`); around it stand the decisions of a toy web server
//! (`http`), a line search (`search`), and a handful of everyday helpers.
pub mod pool;
pub mod http;
pub mod search;
pub mod blog;
pub mod workflow;
pub mod limits;
pub mod guess;
pub mod inventory;
pub mod shapes;
pub mod points;
pub mod outline;
pub mod aggregator;
pub mod restaurant;
pub mod basics;
