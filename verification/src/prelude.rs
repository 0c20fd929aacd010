//! The types most callers need, in one place.
pub use crate::cmd::{
    add, admin, aliases, annotate, archive, attribute, changes, describe, diff, diff2, edit,
    filelog, print, sync, where_cmd,
};
pub use crate::cmd::{
    Add, AdminEntry, Aliases, Annotate, Archive, Attribute, Changes, Describe, Diff, Diff2, Edit,
    FileLog, Print, Sync, Where,
};
pub use crate::cmd::{
    DiffFormat, DiffOptions, DiffOptionsBuilder, DiffOptionsRawMode, DiffOptionsTypedMode,
    ExclusiveOption, LongOutput, SubCommand, Unselected, WhitespaceHandling,
};
pub use crate::command::CommandLine;
pub use crate::global::GlobalOpts;
pub use crate::P4Cli;
