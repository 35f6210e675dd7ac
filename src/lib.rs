pub mod activity;
pub mod client;
pub mod error;
pub mod http;
pub mod json;
pub mod links;
pub mod response;
pub mod text;

pub use client::{Client, DEFAULT_BASE_URL, DEFAULT_UPLOAD_BASE_URL};
