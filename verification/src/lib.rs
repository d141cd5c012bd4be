//! Account state and instruction processing for an on-chain movie review program.
pub mod encoding;
pub mod error;
pub mod instruction;
pub mod laws;
pub mod model;
pub mod outside;
pub mod processor;
pub mod steps;
pub mod state;
