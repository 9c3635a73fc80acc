//! The auction: its messages, its state, its transitions and the laws that
//! hold of them.

pub mod error;
pub mod execute;
pub mod laws;
pub mod ledger;
pub mod model;
pub mod msg;
pub mod response;
pub mod state;
