pub mod initialize;
pub mod deposit;
pub mod withdraw;
pub mod swap;
