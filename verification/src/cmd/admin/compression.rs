//! The mutually exclusive compression modes of `p4 admin checkpoint`.
use vstd::prelude::*;

use crate::argv::{push_arg};
use crate::cmd::ExclusiveOption;

verus! {

/// `-z`: compress both the checkpoint and the journal files.
#[derive(Debug, Clone, Copy, Default, PartialEq, Eq, Structural)]
pub struct Both;

impl ExclusiveOption for Both {
    open spec fn spec_args(&self) -> Seq<Seq<char>> {
        seq!["-z"@]
    }

    fn inject_args(&self, args: &mut Vec<String>) {
        push_arg(args, "-z");
    }
}

/// `-Z`: compress only the checkpoint file.
#[derive(Debug, Clone, Copy, Default, PartialEq, Eq, Structural)]
pub struct CheckPointOnly;

impl ExclusiveOption for CheckPointOnly {
    open spec fn spec_args(&self) -> Seq<Seq<char>> {
        seq!["-Z"@]
    }

    fn inject_args(&self, args: &mut Vec<String>) {
        push_arg(args, "-Z");
    }
}

} // verus!
