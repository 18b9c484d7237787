//! Serving requests.

pub mod tcp;
