//! The messages of the Neutron lockdrop vault for concentrated-liquidity pools, and the
//! errors of the Neutron reserve contract with the text that each error renders to.

pub mod text;
pub mod error;
pub mod msg;
pub mod vesting;
