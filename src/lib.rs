//! Skill bundle catalog: lookup, ranking, install locations and cache policy.

pub mod doctor;
pub mod error;
pub mod installer;
pub mod location;
pub mod matcher;
pub mod model;
pub mod store;
pub mod text;
