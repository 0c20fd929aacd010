//! The mutually exclusive modes of `p4 admin replica-filter-reconcile`.
use vstd::prelude::*;

use crate::argv::{push_arg};
use crate::cmd::ExclusiveOption;

verus! {

/// `--restrict-only`: only remove data that the replica filters exclude.
#[derive(Debug, Clone, Copy, Default, PartialEq, Eq, Structural)]
pub struct RestrictOnly;

impl ExclusiveOption for RestrictOnly {
    open spec fn spec_args(&self) -> Seq<Seq<char>> {
        seq!["--restrict-only"@]
    }

    fn inject_args(&self, args: &mut Vec<String>) {
        push_arg(args, "--restrict-only");
    }
}

/// `--expand-only`: only add data that the replica filters newly include.
#[derive(Debug, Clone, Copy, Default, PartialEq, Eq, Structural)]
pub struct ExpandOnly;

impl ExclusiveOption for ExpandOnly {
    open spec fn spec_args(&self) -> Seq<Seq<char>> {
        seq!["--expand-only"@]
    }

    fn inject_args(&self, args: &mut Vec<String>) {
        push_arg(args, "--expand-only");
    }
}

} // verus!
