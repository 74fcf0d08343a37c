pub mod cp0;
pub mod instruction;
