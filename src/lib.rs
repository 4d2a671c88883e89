//! State, rules and derived views of a terminal dashboard that watches the
//! workloads of a shared compute farm.

pub mod duration;
pub mod progress;
pub mod snapshot;
pub mod cluster;
pub mod controller;
pub mod presentation;
