pub mod context;
pub mod custom_vesting;
pub mod math;
pub mod response;
pub mod rev_share;
pub mod schedule;
pub mod storage;
pub mod text;
pub mod vesting;
pub mod voting_power;
