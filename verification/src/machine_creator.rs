//! Ingestion of explored hosts: turning what exploration found of an expected host into
//! machines, under database locks taken in one agreed order.
//!
//! The library decides; the database and the other services are asked by whoever runs an
//! ingestion. Each stage is a value that says which request comes next, and what follows from
//! the reply.
pub mod boot_nic;
pub mod boot_nic_laws;
pub mod creation;
pub mod creation_laws;
pub mod dpu;
pub mod dpu_laws;
pub mod error_laws;
pub mod ingestion;
pub mod ingestion_laws;
pub mod laws;
pub mod lock_laws;
pub mod lock_stage;
pub mod locks;
pub mod network_config;
pub mod requests;
pub mod run;
pub mod stage_laws;
pub mod topology;
pub mod trace;
pub mod zero_dpu;
pub mod zero_dpu_laws;
