//! Declarations of the types of the `bitcoin` crate that the library carries
//! through its records without looking inside them.

use vstd::prelude::*;

verus! {

/// A reference to a transaction output, `bitcoin::OutPoint`.
#[verifier::external_type_specification]
#[verifier::external_body]
pub struct ExOutPoint(bitcoin::OutPoint);

/// A bitcoin transaction, `bitcoin::Transaction`.
#[verifier::external_type_specification]
#[verifier::external_body]
pub struct ExTransaction(bitcoin::Transaction);

} // verus!
