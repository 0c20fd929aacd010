//! `p4 add`: open files in a client workspace for addition to the depot.
use vstd::prelude::*;

use crate::argv::{
    flag_args,
    lemma_args_concat_assoc,
    opt_ref_view,
    opt_str_view,
    push_flag,
    push_value,
    value_args,
};
use crate::cmd::{command_args, SubCommand};
use crate::command::CommandLine;
use crate::global::{GlobalOpts, GlobalOptsView};

verus! {

broadcast use lemma_args_concat_assoc;

/// `p4 [g-opts] add [-c changelist] [-d -f -I -n] [-t filetype] file ...`
///
/// Open files in a client workspace for addition to the depot.
#[derive(Debug)]
pub struct Add {
    bin: String,
    global_opts: GlobalOpts,
    change_list: Option<String>,
    downgrade: bool,
    force_literal_filenames: bool,
    skip_ignore: bool,
    preview: bool,
    filetype: Option<String>,
}

/// The mathematical view of [`Add`].
pub struct AddView {
    pub bin: Seq<char>,
    pub global_opts: GlobalOptsView,
    pub change_list: Option<Seq<char>>,
    pub downgrade: bool,
    pub force_literal_filenames: bool,
    pub skip_ignore: bool,
    pub preview: bool,
    pub filetype: Option<Seq<char>>,
}

impl View for Add {
    type V = AddView;

    closed spec fn view(&self) -> AddView {
        AddView {
            bin: self.bin@,
            global_opts: self.global_opts@,
            change_list: opt_str_view(self.change_list),
            downgrade: self.downgrade,
            force_literal_filenames: self.force_literal_filenames,
            skip_ignore: self.skip_ignore,
            preview: self.preview,
            filetype: opt_str_view(self.filetype),
        }
    }
}

impl SubCommand for Add {
    open spec fn spec_name(&self) -> Seq<char> {
        "add"@
    }

    open spec fn spec_local_args(&self) -> Seq<Seq<char>> {
        value_args("-c"@, self@.change_list)
        + flag_args(self@.downgrade, "-d"@)
        + flag_args(self@.force_literal_filenames, "-f"@)
        + flag_args(self@.skip_ignore, "-I"@)
        + flag_args(self@.preview, "-n"@)
        + value_args("-t"@, self@.filetype)
    }

    open spec fn spec_global_opts(&self) -> Option<GlobalOptsView> {
        Some(self@.global_opts)
    }

    fn name(&self) -> (r: &str) {
        "add"
    }

    fn inject_local_args(&self, args: &mut Vec<String>) {
        push_value(args, "-c", &self.change_list);
        push_flag(args, self.downgrade, "-d");
        push_flag(args, self.force_literal_filenames, "-f");
        push_flag(args, self.skip_ignore, "-I");
        push_flag(args, self.preview, "-n");
        push_value(args, "-t", &self.filetype);
    }

    fn global_opts(&self) -> (r: Option<&GlobalOpts>) {
        Some(&self.global_opts)
    }
}

impl Add {
    /// Open files in a client workspace for addition to the depot.
    ///
    /// `bin` is the path to the Perforce command-line executable.
    pub fn new(bin: &str, global_opts: GlobalOpts) -> (r: Self)
        ensures
            r@.bin == bin@,
            r@.global_opts == global_opts@,
            r@.change_list is None,
            r@.downgrade == false,
            r@.force_literal_filenames == false,
            r@.skip_ignore == false,
            r@.preview == false,
            r@.filetype is None,
    {
        Add {
            bin: bin.to_owned(),
            global_opts: global_opts,
            change_list: None,
            downgrade: false,
            force_literal_filenames: false,
            skip_ignore: false,
            preview: false,
            filetype: None,
        }
    }

    /// The command line that runs this command with the stored `p4` executable;
    /// operands (files, changelists, ...) follow it.
    pub fn command_line(&self) -> (c: CommandLine)
        ensures
            c@.program == self@.bin,
            c@.args == command_args(self),
    {
        self.setup_command(self.bin.as_str())
    }

    /// g-opts: the global options that precede the command; see [`GlobalOpts`].
    pub fn get_global_opts(&self) -> (r: &GlobalOpts)
        ensures
            r@ == self@.global_opts,
    {
        &self.global_opts
    }

    /// g-opts: the global options that precede the command; see [`GlobalOpts`].
    pub fn set_global_opts(&mut self, v: GlobalOpts) -> (r: &mut Self)
        ensures
            r@ == (AddView { global_opts: v@, ..old(self)@ }),
            *final(self) == *final(r),
    {
        self.global_opts = v;
        self
    }

    /// g-opts: the global options that precede the command; see [`GlobalOpts`].
    pub fn global_opts(self, v: GlobalOpts) -> (r: Self)
        ensures
            r@ == (AddView { global_opts: v@, ..self@ }),
    {
        let mut s = self;
        s.global_opts = v;
        s
    }

    /// `-c changelist`: opens the files for add within the specified changelist. If this
    /// option is not used, the files are linked to the default changelist.
    pub fn get_change_list(&self) -> (r: Option<&String>)
        ensures
            opt_ref_view(r) == self@.change_list,
    {
        self.change_list.as_ref()
    }

    /// `-c changelist`: opens the files for add within the specified changelist. If this
    /// option is not used, the files are linked to the default changelist.
    pub fn set_change_list(&mut self, v: &str) -> (r: &mut Self)
        ensures
            r@ == (AddView { change_list: Some(v@), ..old(self)@ }),
            *final(self) == *final(r),
    {
        self.change_list = Some(v.to_owned());
        self
    }

    /// `-c changelist`: opens the files for add within the specified changelist. If this
    /// option is not used, the files are linked to the default changelist.
    pub fn change_list(self, v: &str) -> (r: Self)
        ensures
            r@ == (AddView { change_list: Some(v@), ..self@ }),
    {
        let mut s = self;
        s.change_list = Some(v.to_owned());
        s
    }

    /// `-d`: downgrade file open status to simple add.
    pub fn get_downgrade(&self) -> (r: bool)
        ensures
            r == self@.downgrade,
    {
        self.downgrade
    }

    /// `-d`: downgrade file open status to simple add.
    pub fn set_downgrade(&mut self, v: bool) -> (r: &mut Self)
        ensures
            r@ == (AddView { downgrade: v, ..old(self)@ }),
            *final(self) == *final(r),
    {
        self.downgrade = v;
        self
    }

    /// `-d`: downgrade file open status to simple add.
    pub fn downgrade(self, v: bool) -> (r: Self)
        ensures
            r@ == (AddView { downgrade: v, ..self@ }),
    {
        let mut s = self;
        s.downgrade = v;
        s
    }

    /// `-f`: force inclusion of wildcards in filenames. Filenames that contain the
    /// special characters `@`, `#`, `%`, or `*` are reformatted to encode the
    /// characters using ASCII hexadecimal representation.
    pub fn get_force_literal_filenames(&self) -> (r: bool)
        ensures
            r == self@.force_literal_filenames,
    {
        self.force_literal_filenames
    }

    /// `-f`: force inclusion of wildcards in filenames. Filenames that contain the
    /// special characters `@`, `#`, `%`, or `*` are reformatted to encode the
    /// characters using ASCII hexadecimal representation.
    pub fn set_force_literal_filenames(&mut self, v: bool) -> (r: &mut Self)
        ensures
            r@ == (AddView { force_literal_filenames: v, ..old(self)@ }),
            *final(self) == *final(r),
    {
        self.force_literal_filenames = v;
        self
    }

    /// `-f`: force inclusion of wildcards in filenames. Filenames that contain the
    /// special characters `@`, `#`, `%`, or `*` are reformatted to encode the
    /// characters using ASCII hexadecimal representation.
    pub fn force_literal_filenames(self, v: bool) -> (r: Self)
        ensures
            r@ == (AddView { force_literal_filenames: v, ..self@ }),
    {
        let mut s = self;
        s.force_literal_filenames = v;
        s
    }

    /// `-I`: do not perform any ignore checking; ignore any settings specified by
    /// `P4IGNORE`.
    pub fn get_skip_ignore(&self) -> (r: bool)
        ensures
            r == self@.skip_ignore,
    {
        self.skip_ignore
    }

    /// `-I`: do not perform any ignore checking; ignore any settings specified by
    /// `P4IGNORE`.
    pub fn set_skip_ignore(&mut self, v: bool) -> (r: &mut Self)
        ensures
            r@ == (AddView { skip_ignore: v, ..old(self)@ }),
            *final(self) == *final(r),
    {
        self.skip_ignore = v;
        self
    }

    /// `-I`: do not perform any ignore checking; ignore any settings specified by
    /// `P4IGNORE`.
    pub fn skip_ignore(self, v: bool) -> (r: Self)
        ensures
            r@ == (AddView { skip_ignore: v, ..self@ }),
    {
        let mut s = self;
        s.skip_ignore = v;
        s
    }

    /// `-n`: preview which files would be opened for add, without actually changing
    /// any files or metadata.
    pub fn get_preview(&self) -> (r: bool)
        ensures
            r == self@.preview,
    {
        self.preview
    }

    /// `-n`: preview which files would be opened for add, without actually changing
    /// any files or metadata.
    pub fn set_preview(&mut self, v: bool) -> (r: &mut Self)
        ensures
            r@ == (AddView { preview: v, ..old(self)@ }),
            *final(self) == *final(r),
    {
        self.preview = v;
        self
    }

    /// `-n`: preview which files would be opened for add, without actually changing
    /// any files or metadata.
    pub fn preview(self, v: bool) -> (r: Self)
        ensures
            r@ == (AddView { preview: v, ..self@ }),
    {
        let mut s = self;
        s.preview = v;
        s
    }

    /// `-t filetype`: adds the file as the specified filetype, overriding any settings
    /// in the typemap table.
    pub fn get_filetype(&self) -> (r: Option<&String>)
        ensures
            opt_ref_view(r) == self@.filetype,
    {
        self.filetype.as_ref()
    }

    /// `-t filetype`: adds the file as the specified filetype, overriding any settings
    /// in the typemap table.
    pub fn set_filetype(&mut self, v: &str) -> (r: &mut Self)
        ensures
            r@ == (AddView { filetype: Some(v@), ..old(self)@ }),
            *final(self) == *final(r),
    {
        self.filetype = Some(v.to_owned());
        self
    }

    /// `-t filetype`: adds the file as the specified filetype, overriding any settings
    /// in the typemap table.
    pub fn filetype(self, v: &str) -> (r: Self)
        ensures
            r@ == (AddView { filetype: Some(v@), ..self@ }),
    {
        let mut s = self;
        s.filetype = Some(v.to_owned());
        s
    }
}

} // verus!
