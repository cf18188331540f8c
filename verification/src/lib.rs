//! Procedural galaxy generation with transactional persistence: the
//! verified core assembles one galaxy graph — a hub star system at the
//! origin, nine systems on the unit sphere, three to seven celestial
//! bodies per system and one to four resource deposits per body — and
//! materializes it atomically in a relational store, which then serves
//! simple read queries.

pub mod auth;
pub mod generator;
pub mod models;
pub mod rng;
pub mod service;
pub mod store;
