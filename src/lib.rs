//! Structural knowledge graph of a source tree and the decision logic of a
//! bounded, self-verifying repair loop driven by build and test failures.
use vstd::prelude::*;

pub mod config;
pub mod heal;
pub mod json;
pub mod oracle;
pub mod ship;
pub mod text;

verus! {

/// Project roots are carried through the library as they are; only the
/// application touches the filesystem through them.
#[verifier::external_type_specification]
#[verifier::external_body]
pub struct ExPathBuf(std::path::PathBuf);

} // verus!
