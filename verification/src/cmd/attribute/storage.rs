//! The mutually exclusive storage locations of `p4 attribute -T`.
use vstd::prelude::*;

use crate::argv::{push_arg};
use crate::cmd::ExclusiveOption;

verus! {

/// `-T0`: store the attribute in the database.
#[derive(Debug, Clone, Copy, Default, PartialEq, Eq, Structural)]
pub struct DatabaseTraits;

impl ExclusiveOption for DatabaseTraits {
    open spec fn spec_args(&self) -> Seq<Seq<char>> {
        seq!["-T0"@]
    }

    fn inject_args(&self, args: &mut Vec<String>) {
        push_arg(args, "-T0");
    }
}

/// `-T1`: store the attribute in the trait depot.
#[derive(Debug, Clone, Copy, Default, PartialEq, Eq, Structural)]
pub struct TraitDepot;

impl ExclusiveOption for TraitDepot {
    open spec fn spec_args(&self) -> Seq<Seq<char>> {
        seq!["-T1"@]
    }

    fn inject_args(&self, args: &mut Vec<String>) {
        push_arg(args, "-T1");
    }
}

} // verus!
