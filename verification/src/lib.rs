pub mod error;
pub mod fees;
pub mod msg;
pub mod ops;
pub mod pricing;
pub mod state;
