//! A dead-man's-switch monitor: the decisions that turn heartbeat arrivals and
//! clock readings into alert attempts and sleeps, with their proofs.

pub mod clock;
pub mod config;
pub mod decimal;
pub mod monitor;
pub mod notifier;
pub mod receiver;
pub mod timeline;
pub mod tracker;
