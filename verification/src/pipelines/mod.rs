pub mod desktop;
pub mod web;
