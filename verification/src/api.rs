pub mod alerts;
pub mod servers;
