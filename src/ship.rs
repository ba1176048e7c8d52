//! Release governance: conventional-commit classification, version bumps and
//! changelog rendering.

pub mod checks;
pub mod commits;
pub mod version;
