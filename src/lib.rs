//! Routing and response logic for a small text-serving HTTP service: probe
//! endpoints, a degrading health counter, configuration exposure and a
//! chapter store built by splitting a document on `****`.
pub mod text;
pub mod chapters;
pub mod reply;
pub mod probe;
pub mod router;
pub mod config;
pub mod site;
