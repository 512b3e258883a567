//! A small "facts" service core: validated value types, a fact entity,
//! error taxonomies, and pluggable storage backends behind one repository
//! contract, all with verified specifications.

pub mod config;
pub mod dao;
mod sampling;
pub mod repository;
pub mod router;
