//! The token registry: the record of which account holds which item, who may
//! move it, and who may mint.

pub mod error;
pub mod execute;
pub mod model;
pub mod msg;
pub mod query;
pub mod state;
