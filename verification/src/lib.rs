pub mod cache;
pub mod config;
pub mod entries;
pub mod laws;
pub mod oauther;
pub mod session;
pub mod text;
pub mod util;
pub mod web;
pub mod wire;
