pub mod buffer;
pub mod dispatcher;
pub mod engine;
pub mod repository;
