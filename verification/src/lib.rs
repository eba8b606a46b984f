//! Client-side logic for submitting Run and Build specifications to a cluster
//! control plane and for reporting on them.

pub mod cli;
pub mod cluster;
pub mod document;
pub mod failure;
pub mod identity;
pub mod key_order;
pub mod listing;
pub mod loader;
pub mod model;
pub mod render;
pub mod report;
pub mod round_trip;
pub mod session;
pub mod submission;
pub mod text;
pub mod waiter;
