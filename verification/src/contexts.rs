//! The accounts that each pool operation works on, and the operation itself.

pub mod deposit;
pub mod initialize;
pub mod swap;
pub mod withdraw;
