//! The web pipeline: wasm builds, the page that loads them, and the
//! development server with hot reload.
pub mod server;
pub mod web_pipeline;
pub mod ws_actor;
