//! Integer kernel of a Monte Carlo harness for competing constant-product
//! market makers: fixed-point quoting, reserve bookkeeping, the strategy wire
//! format and the epoch schedule, each with a machine-checked contract.

pub mod capital;
pub mod context;
pub mod cpamm;
pub mod fixed_point;
pub mod le;
pub mod market;
pub mod runner;
pub mod sim;
pub mod storage;
pub mod strategy;
pub mod types;
pub mod wire;
