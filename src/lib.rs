//! Risk management, stability-fee accrual, liquidation and emergency settlement
//! for collateralized debt positions.
pub mod fixed;
pub mod types;
pub mod engine;
pub mod liquidation;
pub mod unsigned;
pub mod laws;
