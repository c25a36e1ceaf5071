pub mod offline_checker;
pub mod offline_checkers;
pub mod repository;
