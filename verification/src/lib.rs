use vstd::prelude::*;

pub mod cli;
pub mod error;
pub mod global_conn;
pub mod networking;
pub mod http;
pub mod map_mutex;
pub mod client;
pub mod session;
pub mod text;
pub mod workers;
pub mod server;
