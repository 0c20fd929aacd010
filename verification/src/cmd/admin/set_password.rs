//! The mutually exclusive selections of `p4 admin resetpassword`.
use vstd::prelude::*;

use crate::argv::{push_arg, push_pair};
use crate::cmd::ExclusiveOption;

verus! {

/// `-a`: require every user with a password to reset it.
#[derive(Debug, Clone, Copy, Default, PartialEq, Eq, Structural)]
pub struct All;

impl ExclusiveOption for All {
    open spec fn spec_args(&self) -> Seq<Seq<char>> {
        seq!["-a"@]
    }

    fn inject_args(&self, args: &mut Vec<String>) {
        push_arg(args, "-a");
    }
}

/// `-u user`: require the named user to reset the password.
#[derive(Debug, Clone, PartialEq, Eq)]
pub struct User(pub String);

impl ExclusiveOption for User {
    open spec fn spec_args(&self) -> Seq<Seq<char>> {
        seq!["-u"@, self.0@]
    }

    fn inject_args(&self, args: &mut Vec<String>) {
        push_pair(args, "-u", &self.0);
    }
}

} // verus!
