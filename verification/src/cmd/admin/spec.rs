//! The mutually exclusive selections of `p4 admin updatespecdepot`.
use vstd::prelude::*;

use crate::argv::{push_arg};
use super::SpecifiedType;
use crate::cmd::ExclusiveOption;

verus! {

/// `-a`: update the spec depot with every spec type.
#[derive(Debug, Clone, Copy, Default, PartialEq, Eq, Structural)]
pub struct All;

impl ExclusiveOption for All {
    open spec fn spec_args(&self) -> Seq<Seq<char>> {
        seq!["-a"@]
    }

    fn inject_args(&self, args: &mut Vec<String>) {
        push_arg(args, "-a");
    }
}

/// `-s type`: update the spec depot with the specs of one type.
#[derive(Debug, Clone, Copy, PartialEq, Eq, Structural)]
pub struct Selected(pub SpecifiedType);

impl ExclusiveOption for Selected {
    open spec fn spec_args(&self) -> Seq<Seq<char>> {
        seq!["-s"@, self.0.spec_str()]
    }

    fn inject_args(&self, args: &mut Vec<String>) {
        push_arg(args, "-s");
        push_arg(args, self.0.to_str());
    }
}

} // verus!
