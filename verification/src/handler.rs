//! The HTTP calendar endpoint's query surface: its parameters and their
//! reading as a category exclusion mask.

use vstd::prelude::*;

use crate::waste::WasteTypeBitmask;

verus! {

/// The query parameters of a calendar request: the address, and one
/// exclusion flag per category, each false by default.
#[derive(Debug, Clone)]
pub struct QueryParams {
    pub street: String,
    pub street_number: String,
    pub exclude_residual: bool,
    pub exclude_organic: bool,
    pub exclude_recyclable: bool,
    pub exclude_paper: bool,
    pub exclude_bulky: bool,
}

impl From<&QueryParams> for WasteTypeBitmask {
    fn from(value: &QueryParams) -> (r: WasteTypeBitmask) {
        WasteTypeBitmask {
            residual: value.exclude_residual,
            organic: value.exclude_organic,
            recyclable: value.exclude_recyclable,
            paper: value.exclude_paper,
            bulky: value.exclude_bulky,
        }
    }
}

impl vstd::std_specs::convert::FromSpecImpl<&QueryParams> for WasteTypeBitmask {
    open spec fn obeys_from_spec() -> bool {
        true
    }

    open spec fn from_spec(v: &QueryParams) -> WasteTypeBitmask {
        WasteTypeBitmask {
            residual: v.exclude_residual,
            organic: v.exclude_organic,
            recyclable: v.exclude_recyclable,
            paper: v.exclude_paper,
            bulky: v.exclude_bulky,
        }
    }
}

} // verus!
