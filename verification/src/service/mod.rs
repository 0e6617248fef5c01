//! What the service tells its user about itself.

pub mod app;
