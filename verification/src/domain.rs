pub mod alert;
pub mod command;
pub mod health;
pub mod metric;
pub mod state;
pub mod status;
pub mod time;
