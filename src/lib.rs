//! Exact-path HTTP content router: a fixed table of routes, each serving static
//! content with a chosen `Content-Type` and `Content-Disposition`.

pub mod headers;
pub mod laws;
pub mod router;
pub mod site;
