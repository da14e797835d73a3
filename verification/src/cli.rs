//! The command-line surface: its argument record and its reading as a
//! category exclusion mask.

use vstd::prelude::*;

use crate::waste::WasteTypeBitmask;

verus! {

/// The parsed command line: an optional subcommand.
#[derive(Debug)]
pub struct Arguments {
    pub command: Option<Command>,
}

/// The subcommands of the command line.
#[derive(Debug)]
pub enum Command {
    Cli { args: CliArgs },
}

/// The arguments of the `cli` subcommand: the address, and one exclusion
/// flag per category, each false by default.
#[derive(Debug, Clone)]
pub struct CliArgs {
    pub street: String,
    pub street_number: String,
    pub exclude_residual: bool,
    pub exclude_organic: bool,
    pub exclude_recyclable: bool,
    pub exclude_paper: bool,
    pub exclude_bulky: bool,
}

impl From<&CliArgs> for WasteTypeBitmask {
    fn from(value: &CliArgs) -> (r: WasteTypeBitmask) {
        WasteTypeBitmask {
            residual: value.exclude_residual,
            organic: value.exclude_organic,
            recyclable: value.exclude_recyclable,
            paper: value.exclude_paper,
            bulky: value.exclude_bulky,
        }
    }
}

impl vstd::std_specs::convert::FromSpecImpl<&CliArgs> for WasteTypeBitmask {
    open spec fn obeys_from_spec() -> bool {
        true
    }

    open spec fn from_spec(v: &CliArgs) -> WasteTypeBitmask {
        WasteTypeBitmask {
            residual: v.exclude_residual,
            organic: v.exclude_organic,
            recyclable: v.exclude_recyclable,
            paper: v.exclude_paper,
            bulky: v.exclude_bulky,
        }
    }
}

} // verus!
