//! A webhook dispatch engine: the routing, authentication and supervision
//! rules that decide what happens to an inbound request, stated and proved
//! apart from the sockets, processes and timers that carry them out.

pub mod config;
pub mod registry;
pub mod run;
pub mod service;
pub mod signature;
pub mod status;
pub mod trace;
pub mod util;

pub use crate::config::Config;
