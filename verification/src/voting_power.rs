pub mod contract;
pub mod error;
pub mod model;
pub mod msg;
pub mod parse;
pub mod state;
pub mod store;
pub mod stored;
pub mod threshold;
