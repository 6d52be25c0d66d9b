//! Orchestration core of a CRUD benchmark: the data model, the measurement
//! engine, the synthetic data generator, the backend contract with its fixed
//! run order, and the snapshot slot of the control plane.

pub mod benchmark;
pub mod generate;
pub mod measure;
pub mod models;
pub mod server;
pub mod sqlite;
