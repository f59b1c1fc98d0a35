//! Types of the standard library and of other crates that the loop only passes on.

use vstd::prelude::*;

verus! {

/// A point in time; the loop stores it and hands it back.
#[verifier::external_type_specification]
#[verifier::external_body]
pub struct ExInstant(std::time::Instant);

/// A path below a source root; the loop hands it to the indexer.
#[verifier::external_type_specification]
#[verifier::external_body]
pub struct ExRelativePathBuf(relative_path::RelativePathBuf);

/// The hash function of `rustc_hash`'s sets; only a set of numbers uses it.
#[verifier::external_type_specification]
#[verifier::external_body]
pub struct ExFxHasher(rustc_hash::FxHasher);

/// What makes the hash functions of `rustc_hash`'s sets.
#[verifier::external_type_specification]
#[verifier::external_body]
#[verifier::reject_recursive_types(H)]
pub struct ExBuildHasherDefault<H>(std::hash::BuildHasherDefault<H>);

} // verus!
