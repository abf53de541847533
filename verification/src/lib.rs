//! A dynamic QR-code / URL-shortener service, as a verified library.
//!
//! The library holds the service's rules: which URLs are accepted and how they
//! are normalised, how short tokens are drawn, how a redirect is decided from the
//! cache or from the stored mapping, how failures map to HTTP statuses, how a
//! token insert is retried, and how a QR code is rasterised. The HTTP server,
//! the SQLite database and JSON live around it.

pub mod error;
pub mod text;
pub mod timestamp;
pub mod token;
pub mod url_validator;
pub mod models;
pub mod state;
pub mod schemas;
pub mod handlers;
pub mod repo;
pub mod qr;
