//! The counter program's instructions: one module each, with the account they work on.
pub mod increment;
pub mod initialize;
pub mod receive;
pub mod send;
