pub mod contract;
pub mod error;
pub mod gateway;
pub mod lifecycle;
pub mod msg;
pub mod state;
