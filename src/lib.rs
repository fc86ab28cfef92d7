pub mod contract;
pub mod error;
pub mod laws;
pub mod msg;
pub mod selection;
pub mod state;
