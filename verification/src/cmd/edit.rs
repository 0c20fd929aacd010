//! `p4 edit`: open files in a client workspace for edit.
use vstd::prelude::*;

use crate::argv::{
    flag_args,
    joined_args,
    lemma_args_concat_assoc,
    opt_ref_view,
    opt_str_view,
    push_arg,
    push_flag,
    push_joined,
    push_value,
    value_args,
};
use crate::cmd::{command_args, ExclusiveOption, SubCommand, Unselected};
use crate::command::CommandLine;
use crate::global::{GlobalOpts, GlobalOptsView};

verus! {

broadcast use lemma_args_concat_assoc;

/// Opening files for edit: keeping the workspace files (`-k`), previewing
/// (`-n`), a remote (`--remote=`), and a file type (`-t`).
#[derive(Debug, Clone, Default, PartialEq, Eq)]
pub struct FileEditMode {
    keep_workspace: bool,
    preview: bool,
    remote_server: Option<String>,
    filetype: Option<String>,
}

/// The mathematical view of [`FileEditMode`].
pub struct FileEditModeView {
    pub keep_workspace: bool,
    pub preview: bool,
    pub remote_server: Option<Seq<char>>,
    pub filetype: Option<Seq<char>>,
}

impl View for FileEditMode {
    type V = FileEditModeView;

    closed spec fn view(&self) -> FileEditModeView {
        FileEditModeView {
            keep_workspace: self.keep_workspace,
            preview: self.preview,
            remote_server: opt_str_view(self.remote_server),
            filetype: opt_str_view(self.filetype),
        }
    }
}

impl ExclusiveOption for FileEditMode {
    open spec fn spec_args(&self) -> Seq<Seq<char>> {
        flag_args(self@.keep_workspace, "-k"@)
        + flag_args(self@.preview, "-n"@)
        + joined_args("--remote="@, self@.remote_server)
        + value_args("-t"@, self@.filetype)
    }

    fn inject_args(&self, args: &mut Vec<String>) {
        push_flag(args, self.keep_workspace, "-k");
        push_flag(args, self.preview, "-n");
        push_joined(args, "--remote=", &self.remote_server);
        push_value(args, "-t", &self.filetype);
    }
}

/// `-So`: opens the client's current stream spec for edit.
#[derive(Debug, Clone, Copy, Default, PartialEq, Eq, Structural)]
pub struct StreamSpecEditMode;

impl ExclusiveOption for StreamSpecEditMode {
    open spec fn spec_args(&self) -> Seq<Seq<char>> {
        seq!["-So"@]
    }

    fn inject_args(&self, args: &mut Vec<String>) {
        push_arg(args, "-So");
    }
}

/// `p4 [g-opts] edit [-c changelist] [-k -n] [--remote=rmt] [-t filetype] file ...`
/// `p4 [g-opts] edit [-c changelist] -So`
///
/// Open files in a client workspace for edit; the file form and the stream
/// spec form are selected through the mode type parameter.
#[derive(Debug)]
pub struct Edit<M = Unselected> {
    bin: String,
    global_opts: GlobalOpts,
    change_list: Option<String>,
    mode: M,
}

/// The mathematical view of [`Edit`].
pub struct EditView<M> {
    pub bin: Seq<char>,
    pub global_opts: GlobalOptsView,
    pub change_list: Option<Seq<char>>,
    pub mode: M,
}

impl<M> View for Edit<M> {
    type V = EditView<M>;

    closed spec fn view(&self) -> EditView<M> {
        EditView {
            bin: self.bin@,
            global_opts: self.global_opts@,
            change_list: opt_str_view(self.change_list),
            mode: self.mode,
        }
    }
}

impl<M: ExclusiveOption> SubCommand for Edit<M> {
    open spec fn spec_name(&self) -> Seq<char> {
        "edit"@
    }

    open spec fn spec_local_args(&self) -> Seq<Seq<char>> {
        value_args("-c"@, self@.change_list)
        + self@.mode.spec_args()
    }

    open spec fn spec_global_opts(&self) -> Option<GlobalOptsView> {
        Some(self@.global_opts)
    }

    fn name(&self) -> (r: &str) {
        "edit"
    }

    fn inject_local_args(&self, args: &mut Vec<String>) {
        push_value(args, "-c", &self.change_list);
        self.mode.inject_args(args);
    }

    fn global_opts(&self) -> (r: Option<&GlobalOpts>) {
        Some(&self.global_opts)
    }
}

impl Edit<Unselected> {
    /// Open files in a client workspace for edit.
    ///
    /// `bin` is the path to the Perforce command-line executable.
    pub fn new(bin: &str, global_opts: GlobalOpts) -> (r: Self)
        ensures
            r@.bin == bin@,
            r@.global_opts == global_opts@,
            r@.change_list is None,
            r@.mode == Unselected,
    {
        Edit {
            bin: bin.to_owned(),
            global_opts: global_opts,
            change_list: None,
            mode: Unselected,
        }
    }

    /// `-k`: keeps the existing workspace files; opens them for edit without
    /// retrieving them from the server; selects the file form.
    pub fn keep_workspace(self, v: bool) -> (r: Edit<FileEditMode>)
        ensures
            r@.bin == self@.bin,
            r@.global_opts == self@.global_opts,
            r@.change_list == self@.change_list,
            r@.mode@.keep_workspace == v,
            r@.mode@.preview == false,
            r@.mode@.remote_server is None,
            r@.mode@.filetype is None,
    {
        Edit {
            bin: self.bin,
            global_opts: self.global_opts,
            change_list: self.change_list,
            mode: FileEditMode {
                keep_workspace: v,
                preview: false,
                remote_server: None,
                filetype: None,
            },
        }
    }

    /// `-n`: previews the result of the operation without changing any files or
    /// metadata; selects the file form.
    pub fn preview(self, v: bool) -> (r: Edit<FileEditMode>)
        ensures
            r@.bin == self@.bin,
            r@.global_opts == self@.global_opts,
            r@.change_list == self@.change_list,
            r@.mode@.keep_workspace == false,
            r@.mode@.preview == v,
            r@.mode@.remote_server is None,
            r@.mode@.filetype is None,
    {
        Edit {
            bin: self.bin,
            global_opts: self.global_opts,
            change_list: self.change_list,
            mode: FileEditMode {
                keep_workspace: false,
                preview: v,
                remote_server: None,
                filetype: None,
            },
        }
    }

    /// `--remote=rmt`: the remote server, for files in a DVCS configuration; selects the file form.
    pub fn remote_server(self, v: &str) -> (r: Edit<FileEditMode>)
        ensures
            r@.bin == self@.bin,
            r@.global_opts == self@.global_opts,
            r@.change_list == self@.change_list,
            r@.mode@.keep_workspace == false,
            r@.mode@.preview == false,
            r@.mode@.remote_server == Some(v@),
            r@.mode@.filetype is None,
    {
        Edit {
            bin: self.bin,
            global_opts: self.global_opts,
            change_list: self.change_list,
            mode: FileEditMode {
                keep_workspace: false,
                preview: false,
                remote_server: Some(v.to_owned()),
                filetype: None,
            },
        }
    }

    /// `-t filetype`: opens the files as the given file type; selects the file form.
    pub fn filetype(self, v: &str) -> (r: Edit<FileEditMode>)
        ensures
            r@.bin == self@.bin,
            r@.global_opts == self@.global_opts,
            r@.change_list == self@.change_list,
            r@.mode@.keep_workspace == false,
            r@.mode@.preview == false,
            r@.mode@.remote_server is None,
            r@.mode@.filetype == Some(v@),
    {
        Edit {
            bin: self.bin,
            global_opts: self.global_opts,
            change_list: self.change_list,
            mode: FileEditMode {
                keep_workspace: false,
                preview: false,
                remote_server: None,
                filetype: Some(v.to_owned()),
            },
        }
    }

    /// `-So`: selects the stream spec form.
    pub fn edit_stream_spec(self) -> (r: Edit<StreamSpecEditMode>)
        ensures
            r@.bin == self@.bin,
            r@.global_opts == self@.global_opts,
            r@.change_list == self@.change_list,
            r@.mode == StreamSpecEditMode,
    {
        Edit {
            bin: self.bin,
            global_opts: self.global_opts,
            change_list: self.change_list,
            mode: StreamSpecEditMode,
        }
    }
}

impl Edit<FileEditMode> {
    /// `-k`: keeps the existing workspace files; opens them for edit without
    /// retrieving them from the server.
    pub fn get_keep_workspace(&self) -> (r: bool)
        ensures
            r == self@.mode@.keep_workspace,
    {
        self.mode.keep_workspace
    }

    /// `-k`: keeps the existing workspace files; opens them for edit without
    /// retrieving them from the server.
    pub fn set_keep_workspace(&mut self, v: bool) -> (r: &mut Self)
        ensures
            r@.bin == old(self)@.bin,
            r@.global_opts == old(self)@.global_opts,
            r@.change_list == old(self)@.change_list,
            r@.mode@ == (FileEditModeView { keep_workspace: v, ..old(self)@.mode@ }),
            *final(self) == *final(r),
    {
        self.mode.keep_workspace = v;
        self
    }

    /// `-k`: keeps the existing workspace files; opens them for edit without
    /// retrieving them from the server.
    pub fn keep_workspace(self, v: bool) -> (r: Self)
        ensures
            r@.bin == self@.bin,
            r@.global_opts == self@.global_opts,
            r@.change_list == self@.change_list,
            r@.mode@ == (FileEditModeView { keep_workspace: v, ..self@.mode@ }),
    {
        let mut s = self;
        s.mode.keep_workspace = v;
        s
    }

    /// `-n`: previews the result of the operation without changing any files or
    /// metadata.
    pub fn get_preview(&self) -> (r: bool)
        ensures
            r == self@.mode@.preview,
    {
        self.mode.preview
    }

    /// `-n`: previews the result of the operation without changing any files or
    /// metadata.
    pub fn set_preview(&mut self, v: bool) -> (r: &mut Self)
        ensures
            r@.bin == old(self)@.bin,
            r@.global_opts == old(self)@.global_opts,
            r@.change_list == old(self)@.change_list,
            r@.mode@ == (FileEditModeView { preview: v, ..old(self)@.mode@ }),
            *final(self) == *final(r),
    {
        self.mode.preview = v;
        self
    }

    /// `-n`: previews the result of the operation without changing any files or
    /// metadata.
    pub fn preview(self, v: bool) -> (r: Self)
        ensures
            r@.bin == self@.bin,
            r@.global_opts == self@.global_opts,
            r@.change_list == self@.change_list,
            r@.mode@ == (FileEditModeView { preview: v, ..self@.mode@ }),
    {
        let mut s = self;
        s.mode.preview = v;
        s
    }

    /// `--remote=rmt`: the remote server, for files in a DVCS configuration.
    pub fn get_remote_server(&self) -> (r: Option<&String>)
        ensures
            opt_ref_view(r) == self@.mode@.remote_server,
    {
        self.mode.remote_server.as_ref()
    }

    /// `--remote=rmt`: the remote server, for files in a DVCS configuration.
    pub fn set_remote_server(&mut self, v: &str) -> (r: &mut Self)
        ensures
            r@.bin == old(self)@.bin,
            r@.global_opts == old(self)@.global_opts,
            r@.change_list == old(self)@.change_list,
            r@.mode@ == (FileEditModeView { remote_server: Some(v@), ..old(self)@.mode@ }),
            *final(self) == *final(r),
    {
        self.mode.remote_server = Some(v.to_owned());
        self
    }

    /// `--remote=rmt`: the remote server, for files in a DVCS configuration.
    pub fn remote_server(self, v: &str) -> (r: Self)
        ensures
            r@.bin == self@.bin,
            r@.global_opts == self@.global_opts,
            r@.change_list == self@.change_list,
            r@.mode@ == (FileEditModeView { remote_server: Some(v@), ..self@.mode@ }),
    {
        let mut s = self;
        s.mode.remote_server = Some(v.to_owned());
        s
    }

    /// `-t filetype`: opens the files as the given file type.
    pub fn get_filetype(&self) -> (r: Option<&String>)
        ensures
            opt_ref_view(r) == self@.mode@.filetype,
    {
        self.mode.filetype.as_ref()
    }

    /// `-t filetype`: opens the files as the given file type.
    pub fn set_filetype(&mut self, v: &str) -> (r: &mut Self)
        ensures
            r@.bin == old(self)@.bin,
            r@.global_opts == old(self)@.global_opts,
            r@.change_list == old(self)@.change_list,
            r@.mode@ == (FileEditModeView { filetype: Some(v@), ..old(self)@.mode@ }),
            *final(self) == *final(r),
    {
        self.mode.filetype = Some(v.to_owned());
        self
    }

    /// `-t filetype`: opens the files as the given file type.
    pub fn filetype(self, v: &str) -> (r: Self)
        ensures
            r@.bin == self@.bin,
            r@.global_opts == self@.global_opts,
            r@.change_list == self@.change_list,
            r@.mode@ == (FileEditModeView { filetype: Some(v@), ..self@.mode@ }),
    {
        let mut s = self;
        s.mode.filetype = Some(v.to_owned());
        s
    }
}

impl<M: ExclusiveOption> Edit<M> {
    /// The command line that runs this command with the stored `p4` executable;
    /// operands (files, changelists, ...) follow it.
    pub fn command_line(&self) -> (c: CommandLine)
        ensures
            c@.program == self@.bin,
            c@.args == command_args(self),
    {
        self.setup_command(self.bin.as_str())
    }

    /// g-opts: the global options that precede the command; see [`GlobalOpts`].
    pub fn get_global_opts(&self) -> (r: &GlobalOpts)
        ensures
            r@ == self@.global_opts,
    {
        &self.global_opts
    }

    /// g-opts: the global options that precede the command; see [`GlobalOpts`].
    pub fn set_global_opts(&mut self, v: GlobalOpts) -> (r: &mut Self)
        ensures
            r@ == (EditView { global_opts: v@, ..old(self)@ }),
            *final(self) == *final(r),
    {
        self.global_opts = v;
        self
    }

    /// g-opts: the global options that precede the command; see [`GlobalOpts`].
    pub fn global_opts(self, v: GlobalOpts) -> (r: Self)
        ensures
            r@ == (EditView { global_opts: v@, ..self@ }),
    {
        let mut s = self;
        s.global_opts = v;
        s
    }

    /// `-c changelist`: opens the files within the specified changelist.
    pub fn get_change_list(&self) -> (r: Option<&String>)
        ensures
            opt_ref_view(r) == self@.change_list,
    {
        self.change_list.as_ref()
    }

    /// `-c changelist`: opens the files within the specified changelist.
    pub fn set_change_list(&mut self, v: &str) -> (r: &mut Self)
        ensures
            r@ == (EditView { change_list: Some(v@), ..old(self)@ }),
            *final(self) == *final(r),
    {
        self.change_list = Some(v.to_owned());
        self
    }

    /// `-c changelist`: opens the files within the specified changelist.
    pub fn change_list(self, v: &str) -> (r: Self)
        ensures
            r@ == (EditView { change_list: Some(v@), ..self@ }),
    {
        let mut s = self;
        s.change_list = Some(v.to_owned());
        s
    }
}

} // verus!
