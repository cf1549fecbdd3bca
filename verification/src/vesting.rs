pub mod contract;
pub mod error;
pub mod model;
pub mod msg;
pub mod state;
pub mod store;
