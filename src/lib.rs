//! Update detection for binary packages installed by cargo: parsing of the
//! install record, resolution of each package's upstream, comparison with the
//! latest upstream version and the report and install plan built from it.
use vstd::prelude::*;

pub mod text;
pub mod index;
pub mod version;
pub mod record;
pub mod package;
pub mod plan;
pub mod report;

verus! {

} // verus!
