//! A small HTTP/1.1 file server's request logic: request-target extraction,
//! path resolution, response assembly, the per-connection decision steps and
//! the job queue that feeds the worker pool.
pub mod connection;
pub mod pool;
pub mod request;
pub mod response;

pub use request::get_uri;
