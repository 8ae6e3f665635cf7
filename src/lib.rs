//! Decoding of the AAMVA DL/ID barcode payload into typed records.
use vstd::prelude::*;

pub mod error;
pub mod header;
pub mod lemmas;
pub mod documents;
pub mod elements;
pub mod text;

verus! {

} // verus!
