//! The mutually exclusive ways of following history in `p4 annotate`.
use vstd::prelude::*;

use crate::argv::{push_arg};
use crate::cmd::ExclusiveOption;

verus! {

/// `-i`: follow branches: include the history of files that were branched
/// from the named files.
#[derive(Debug, Clone, Copy, Default, PartialEq, Eq, Structural)]
pub struct Branches;

impl ExclusiveOption for Branches {
    open spec fn spec_args(&self) -> Seq<Seq<char>> {
        seq!["-i"@]
    }

    fn inject_args(&self, args: &mut Vec<String>) {
        push_arg(args, "-i");
    }
}

/// `-I`: follow all integrations into the file.
#[derive(Debug, Clone, Copy, Default, PartialEq, Eq, Structural)]
pub struct Integrations;

impl ExclusiveOption for Integrations {
    open spec fn spec_args(&self) -> Seq<Seq<char>> {
        seq!["-I"@]
    }

    fn inject_args(&self, args: &mut Vec<String>) {
        push_arg(args, "-I");
    }
}

} // verus!
