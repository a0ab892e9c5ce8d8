//! Verified core of an arena-backed object explorer and its terminal browser:
//! ownership lifecycle of arena roots, borrow leases, export barriers,
//! cooperative end scans, breadcrumb queries, card snapshots and the
//! selection logic of the browser's pickers.
use vstd::prelude::*;

pub mod browser;
pub mod explorer;
pub mod text;

verus! {

} // verus!
