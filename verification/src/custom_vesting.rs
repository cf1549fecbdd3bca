pub mod contract;
pub mod error;
pub mod history;
pub mod ledger;
pub mod lemmas;
pub mod model;
pub mod msg;
pub mod payments;
pub mod state;
pub mod store;
