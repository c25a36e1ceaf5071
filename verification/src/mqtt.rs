pub mod topics;
pub mod publisher;
pub mod consumer;
