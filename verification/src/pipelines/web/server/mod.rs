//! The development web server: which file answers a request, and what the
//! web-socket actor does with each event.
pub mod server;
pub mod ws;
pub mod ws_actor;
