//! Global options (`g-opts`), accepted by every `p4` command and placed
//! before the command name.
use vstd::prelude::*;

use crate::argv::{
    clone_opt_str,
    clone_opt_strings,
    flag_args,
    lemma_args_concat_assoc,
    number_args,
    opt_as_slice,
    opt_copied,
    opt_push,
    opt_ref_view,
    opt_repeated_args,
    opt_slice_view,
    opt_str_view,
    opt_strings_view,
    opt_vec_push,
    push_arg,
    push_flag,
    push_number,
    push_repeated,
    push_value,
    value_args,
    widen,
    widen_u32,
};

verus! {

broadcast use lemma_args_concat_assoc;

/// The global options (`g-opts`) that every `p4` command accepts.
///
/// Each option has a consuming builder (`x(v)`), a `&mut self` setter
/// (`set_x(v)`) and a getter (`get_x()`).
#[derive(Debug)]
pub struct GlobalOpts {
    batch_size: Option<u32>,
    client: Option<String>,
    dir: Option<String>,
    progress_indicators: bool,
    standard_in: bool,
    marshalled_formatted: bool,
    json_formatted: bool,
    host: Option<String>,
    standard_out: bool,
    port: Option<String>,
    pass: Option<String>,
    retries: Option<u32>,
    prepend_descriptive: bool,
    user: Option<String>,
    argfile: Option<String>,
    charset: Option<String>,
    command_charset: Option<String>,
    language: Option<String>,
    tagged_format: bool,
    quiet_mode: bool,
    debug_variable: Option<Vec<String>>,
    display_version: bool,
    display_help: bool,
}

/// The mathematical view of [`GlobalOpts`]: one entry per option.
pub struct GlobalOptsView {
    pub batch_size: Option<u32>,
    pub client: Option<Seq<char>>,
    pub dir: Option<Seq<char>>,
    pub progress_indicators: bool,
    pub standard_in: bool,
    pub marshalled_formatted: bool,
    pub json_formatted: bool,
    pub host: Option<Seq<char>>,
    pub standard_out: bool,
    pub port: Option<Seq<char>>,
    pub pass: Option<Seq<char>>,
    pub retries: Option<u32>,
    pub prepend_descriptive: bool,
    pub user: Option<Seq<char>>,
    pub argfile: Option<Seq<char>>,
    pub charset: Option<Seq<char>>,
    pub command_charset: Option<Seq<char>>,
    pub language: Option<Seq<char>>,
    pub tagged_format: bool,
    pub quiet_mode: bool,
    pub debug_variable: Option<Seq<Seq<char>>>,
    pub display_version: bool,
    pub display_help: bool,
}

impl View for GlobalOpts {
    type V = GlobalOptsView;

    closed spec fn view(&self) -> GlobalOptsView {
        GlobalOptsView {
            batch_size: self.batch_size,
            client: opt_str_view(self.client),
            dir: opt_str_view(self.dir),
            progress_indicators: self.progress_indicators,
            standard_in: self.standard_in,
            marshalled_formatted: self.marshalled_formatted,
            json_formatted: self.json_formatted,
            host: opt_str_view(self.host),
            standard_out: self.standard_out,
            port: opt_str_view(self.port),
            pass: opt_str_view(self.pass),
            retries: self.retries,
            prepend_descriptive: self.prepend_descriptive,
            user: opt_str_view(self.user),
            argfile: opt_str_view(self.argfile),
            charset: opt_str_view(self.charset),
            command_charset: opt_str_view(self.command_charset),
            language: opt_str_view(self.language),
            tagged_format: self.tagged_format,
            quiet_mode: self.quiet_mode,
            debug_variable: opt_strings_view(self.debug_variable),
            display_version: self.display_version,
            display_help: self.display_help,
        }
    }
}

/// The options as [`GlobalOpts::new`] makes them: nothing set.
pub open spec fn default_global_opts() -> GlobalOptsView {
    GlobalOptsView {
        batch_size: None,
        client: None,
        dir: None,
        progress_indicators: false,
        standard_in: false,
        marshalled_formatted: false,
        json_formatted: false,
        host: None,
        standard_out: false,
        port: None,
        pass: None,
        retries: None,
        prepend_descriptive: false,
        user: None,
        argfile: None,
        charset: None,
        command_charset: None,
        language: None,
        tagged_format: false,
        quiet_mode: false,
        debug_variable: None,
        display_version: false,
        display_help: false,
    }
}

/// `-z tag` when tagged output is on, nothing otherwise.
pub open spec fn tagged_args(on: bool) -> Seq<Seq<char>> {
    if on {
        seq!["-z"@, "tag"@]
    } else {
        seq![]
    }
}

/// The arguments that the options contribute, in the documented order:
/// `-b -c -d -I -i -G -Mj -H -o -p -P -r -s -u -x -C -Q -L -z tag -q -v... -V -h`.
pub open spec fn global_args(g: GlobalOptsView) -> Seq<Seq<char>> {
    number_args("-b"@, widen(g.batch_size))
    + value_args("-c"@, g.client)
    + value_args("-d"@, g.dir)
    + flag_args(g.progress_indicators, "-I"@)
    + flag_args(g.standard_in, "-i"@)
    + flag_args(g.marshalled_formatted, "-G"@)
    + flag_args(g.json_formatted, "-Mj"@)
    + value_args("-H"@, g.host)
    + flag_args(g.standard_out, "-o"@)
    + value_args("-p"@, g.port)
    + value_args("-P"@, g.pass)
    + number_args("-r"@, widen(g.retries))
    + flag_args(g.prepend_descriptive, "-s"@)
    + value_args("-u"@, g.user)
    + value_args("-x"@, g.argfile)
    + value_args("-C"@, g.charset)
    + value_args("-Q"@, g.command_charset)
    + value_args("-L"@, g.language)
    + tagged_args(g.tagged_format)
    + flag_args(g.quiet_mode, "-q"@)
    + opt_repeated_args("-v"@, g.debug_variable)
    + flag_args(g.display_version, "-V"@)
    + flag_args(g.display_help, "-h"@)
}

fn push_tagged(args: &mut Vec<String>, on: bool)
    ensures
        final(args).deep_view() == old(args).deep_view() + tagged_args(on),
{
    if on {
        push_arg(args, "-z");
        push_arg(args, "tag");
    }
    assert(args.deep_view() =~= old(args).deep_view() + tagged_args(on));
}

impl Default for GlobalOpts {
    fn default() -> (r: Self)
        ensures
            r@ == default_global_opts(),
    {
        GlobalOpts::new()
    }
}

impl Clone for GlobalOpts {
    fn clone(&self) -> (r: Self)
        ensures
            r@ == self@,
    {
        GlobalOpts {
            batch_size: self.batch_size,
            client: clone_opt_str(&self.client),
            dir: clone_opt_str(&self.dir),
            progress_indicators: self.progress_indicators,
            standard_in: self.standard_in,
            marshalled_formatted: self.marshalled_formatted,
            json_formatted: self.json_formatted,
            host: clone_opt_str(&self.host),
            standard_out: self.standard_out,
            port: clone_opt_str(&self.port),
            pass: clone_opt_str(&self.pass),
            retries: self.retries,
            prepend_descriptive: self.prepend_descriptive,
            user: clone_opt_str(&self.user),
            argfile: clone_opt_str(&self.argfile),
            charset: clone_opt_str(&self.charset),
            command_charset: clone_opt_str(&self.command_charset),
            language: clone_opt_str(&self.language),
            tagged_format: self.tagged_format,
            quiet_mode: self.quiet_mode,
            debug_variable: clone_opt_strings(&self.debug_variable),
            display_version: self.display_version,
            display_help: self.display_help,
        }
    }
}

impl GlobalOpts {
    /// Global options with nothing set.
    pub fn new() -> (r: Self)
        ensures
            r@ == default_global_opts(),
    {
        GlobalOpts {
            batch_size: None,
            client: None,
            dir: None,
            progress_indicators: false,
            standard_in: false,
            marshalled_formatted: false,
            json_formatted: false,
            host: None,
            standard_out: false,
            port: None,
            pass: None,
            retries: None,
            prepend_descriptive: false,
            user: None,
            argfile: None,
            charset: None,
            command_charset: None,
            language: None,
            tagged_format: false,
            quiet_mode: false,
            debug_variable: None,
            display_version: false,
            display_help: false,
        }
    }

    /// Appends the arguments of the options to `args`, in the documented
    /// order, and hands `args` back for further chaining.
    pub fn setup_args<'a>(&self, args: &'a mut Vec<String>) -> (r: &'a mut Vec<String>)
        ensures
            r.deep_view() == old(args).deep_view() + global_args(self@),
            *final(args) == *final(r),
    {
        push_number(args, "-b", widen_u32(self.batch_size));
        push_value(args, "-c", &self.client);
        push_value(args, "-d", &self.dir);
        push_flag(args, self.progress_indicators, "-I");
        push_flag(args, self.standard_in, "-i");
        push_flag(args, self.marshalled_formatted, "-G");
        push_flag(args, self.json_formatted, "-Mj");
        push_value(args, "-H", &self.host);
        push_flag(args, self.standard_out, "-o");
        push_value(args, "-p", &self.port);
        push_value(args, "-P", &self.pass);
        push_number(args, "-r", widen_u32(self.retries));
        push_flag(args, self.prepend_descriptive, "-s");
        push_value(args, "-u", &self.user);
        push_value(args, "-x", &self.argfile);
        push_value(args, "-C", &self.charset);
        push_value(args, "-Q", &self.command_charset);
        push_value(args, "-L", &self.language);
        push_tagged(args, self.tagged_format);
        push_flag(args, self.quiet_mode, "-q");
        push_repeated(args, "-v", &self.debug_variable);
        push_flag(args, self.display_version, "-V");
        push_flag(args, self.display_help, "-h");
        args
    }

    /// `-b batchsize`: the number of arguments processed per batch (with `-x argfile`).
    pub fn get_batch_size(&self) -> (r: Option<&u32>)
        ensures
            opt_copied(r) == self@.batch_size,
    {
        self.batch_size.as_ref()
    }

    /// `-b batchsize`: the number of arguments processed per batch (with `-x argfile`).
    pub fn set_batch_size(&mut self, v: u32) -> (r: &mut Self)
        ensures
            r@ == (GlobalOptsView { batch_size: Some(v), ..old(self)@ }),
            *final(self) == *final(r),
    {
        self.batch_size = Some(v);
        self
    }

    /// `-b batchsize`: the number of arguments processed per batch (with `-x argfile`).
    pub fn batch_size(self, v: u32) -> (r: Self)
        ensures
            r@ == (GlobalOptsView { batch_size: Some(v), ..self@ }),
    {
        let mut s = self;
        s.batch_size = Some(v);
        s
    }

    /// `-c client`: overrides the `P4CLIENT` workspace name.
    pub fn get_client(&self) -> (r: Option<&String>)
        ensures
            opt_ref_view(r) == self@.client,
    {
        self.client.as_ref()
    }

    /// `-c client`: overrides the `P4CLIENT` workspace name.
    pub fn set_client(&mut self, v: &str) -> (r: &mut Self)
        ensures
            r@ == (GlobalOptsView { client: Some(v@), ..old(self)@ }),
            *final(self) == *final(r),
    {
        self.client = Some(v.to_owned());
        self
    }

    /// `-c client`: overrides the `P4CLIENT` workspace name.
    pub fn client(self, v: &str) -> (r: Self)
        ensures
            r@ == (GlobalOptsView { client: Some(v@), ..self@ }),
    {
        let mut s = self;
        s.client = Some(v.to_owned());
        s
    }

    /// `-d dir`: overrides the `PWD` current directory.
    pub fn get_dir(&self) -> (r: Option<&String>)
        ensures
            opt_ref_view(r) == self@.dir,
    {
        self.dir.as_ref()
    }

    /// `-d dir`: overrides the `PWD` current directory.
    pub fn set_dir(&mut self, v: &str) -> (r: &mut Self)
        ensures
            r@ == (GlobalOptsView { dir: Some(v@), ..old(self)@ }),
            *final(self) == *final(r),
    {
        self.dir = Some(v.to_owned());
        self
    }

    /// `-d dir`: overrides the `PWD` current directory.
    pub fn dir(self, v: &str) -> (r: Self)
        ensures
            r@ == (GlobalOptsView { dir: Some(v@), ..self@ }),
    {
        let mut s = self;
        s.dir = Some(v.to_owned());
        s
    }

    /// `-I`: shows progress indicators, for commands that support them.
    pub fn get_progress_indicators(&self) -> (r: bool)
        ensures
            r == self@.progress_indicators,
    {
        self.progress_indicators
    }

    /// `-I`: shows progress indicators, for commands that support them.
    pub fn set_progress_indicators(&mut self, v: bool) -> (r: &mut Self)
        ensures
            r@ == (GlobalOptsView { progress_indicators: v, ..old(self)@ }),
            *final(self) == *final(r),
    {
        self.progress_indicators = v;
        self
    }

    /// `-I`: shows progress indicators, for commands that support them.
    pub fn progress_indicators(self, v: bool) -> (r: Self)
        ensures
            r@ == (GlobalOptsView { progress_indicators: v, ..self@ }),
    {
        let mut s = self;
        s.progress_indicators = v;
        s
    }

    /// `-i`: reads arguments from standard input, one per line (like `-x -`).
    pub fn get_standard_in(&self) -> (r: bool)
        ensures
            r == self@.standard_in,
    {
        self.standard_in
    }

    /// `-i`: reads arguments from standard input, one per line (like `-x -`).
    pub fn set_standard_in(&mut self, v: bool) -> (r: &mut Self)
        ensures
            r@ == (GlobalOptsView { standard_in: v, ..old(self)@ }),
            *final(self) == *final(r),
    {
        self.standard_in = v;
        self
    }

    /// `-i`: reads arguments from standard input, one per line (like `-x -`).
    pub fn standard_in(self, v: bool) -> (r: Self)
        ensures
            r@ == (GlobalOptsView { standard_in: v, ..self@ }),
    {
        let mut s = self;
        s.standard_in = v;
        s
    }

    /// `-G`: writes output as marshalled Python dictionary objects.
    pub fn get_marshalled_formatted(&self) -> (r: bool)
        ensures
            r == self@.marshalled_formatted,
    {
        self.marshalled_formatted
    }

    /// `-G`: writes output as marshalled Python dictionary objects.
    pub fn set_marshalled_formatted(&mut self, v: bool) -> (r: &mut Self)
        ensures
            r@ == (GlobalOptsView { marshalled_formatted: v, ..old(self)@ }),
            *final(self) == *final(r),
    {
        self.marshalled_formatted = v;
        self
    }

    /// `-G`: writes output as marshalled Python dictionary objects.
    pub fn marshalled_formatted(self, v: bool) -> (r: Self)
        ensures
            r@ == (GlobalOptsView { marshalled_formatted: v, ..self@ }),
    {
        let mut s = self;
        s.marshalled_formatted = v;
        s
    }

    /// `-Mj`: writes output as JSON.
    pub fn get_json_formatted(&self) -> (r: bool)
        ensures
            r == self@.json_formatted,
    {
        self.json_formatted
    }

    /// `-Mj`: writes output as JSON.
    pub fn set_json_formatted(&mut self, v: bool) -> (r: &mut Self)
        ensures
            r@ == (GlobalOptsView { json_formatted: v, ..old(self)@ }),
            *final(self) == *final(r),
    {
        self.json_formatted = v;
        self
    }

    /// `-Mj`: writes output as JSON.
    pub fn json_formatted(self, v: bool) -> (r: Self)
        ensures
            r@ == (GlobalOptsView { json_formatted: v, ..self@ }),
    {
        let mut s = self;
        s.json_formatted = v;
        s
    }

    /// `-H host`: overrides the `P4HOST` host name.
    pub fn get_host(&self) -> (r: Option<&String>)
        ensures
            opt_ref_view(r) == self@.host,
    {
        self.host.as_ref()
    }

    /// `-H host`: overrides the `P4HOST` host name.
    pub fn set_host(&mut self, v: &str) -> (r: &mut Self)
        ensures
            r@ == (GlobalOptsView { host: Some(v@), ..old(self)@ }),
            *final(self) == *final(r),
    {
        self.host = Some(v.to_owned());
        self
    }

    /// `-H host`: overrides the `P4HOST` host name.
    pub fn host(self, v: &str) -> (r: Self)
        ensures
            r@ == (GlobalOptsView { host: Some(v@), ..self@ }),
    {
        let mut s = self;
        s.host = Some(v.to_owned());
        s
    }

    /// `-o`: writes output to standard output.
    pub fn get_standard_out(&self) -> (r: bool)
        ensures
            r == self@.standard_out,
    {
        self.standard_out
    }

    /// `-o`: writes output to standard output.
    pub fn set_standard_out(&mut self, v: bool) -> (r: &mut Self)
        ensures
            r@ == (GlobalOptsView { standard_out: v, ..old(self)@ }),
            *final(self) == *final(r),
    {
        self.standard_out = v;
        self
    }

    /// `-o`: writes output to standard output.
    pub fn standard_out(self, v: bool) -> (r: Self)
        ensures
            r@ == (GlobalOptsView { standard_out: v, ..self@ }),
    {
        let mut s = self;
        s.standard_out = v;
        s
    }

    /// `-p port`: overrides the `P4PORT` server address.
    pub fn get_port(&self) -> (r: Option<&String>)
        ensures
            opt_ref_view(r) == self@.port,
    {
        self.port.as_ref()
    }

    /// `-p port`: overrides the `P4PORT` server address.
    pub fn set_port(&mut self, v: &str) -> (r: &mut Self)
        ensures
            r@ == (GlobalOptsView { port: Some(v@), ..old(self)@ }),
            *final(self) == *final(r),
    {
        self.port = Some(v.to_owned());
        self
    }

    /// `-p port`: overrides the `P4PORT` server address.
    pub fn port(self, v: &str) -> (r: Self)
        ensures
            r@ == (GlobalOptsView { port: Some(v@), ..self@ }),
    {
        let mut s = self;
        s.port = Some(v.to_owned());
        s
    }

    /// `-P password`: overrides the `P4PASSWD` password or ticket.
    pub fn get_pass(&self) -> (r: Option<&String>)
        ensures
            opt_ref_view(r) == self@.pass,
    {
        self.pass.as_ref()
    }

    /// `-P password`: overrides the `P4PASSWD` password or ticket.
    pub fn set_pass(&mut self, v: &str) -> (r: &mut Self)
        ensures
            r@ == (GlobalOptsView { pass: Some(v@), ..old(self)@ }),
            *final(self) == *final(r),
    {
        self.pass = Some(v.to_owned());
        self
    }

    /// `-P password`: overrides the `P4PASSWD` password or ticket.
    pub fn pass(self, v: &str) -> (r: Self)
        ensures
            r@ == (GlobalOptsView { pass: Some(v@), ..self@ }),
    {
        let mut s = self;
        s.pass = Some(v.to_owned());
        s
    }

    /// `-r retries`: the number of times to retry a command when the connection fails.
    pub fn get_retries(&self) -> (r: Option<&u32>)
        ensures
            opt_copied(r) == self@.retries,
    {
        self.retries.as_ref()
    }

    /// `-r retries`: the number of times to retry a command when the connection fails.
    pub fn set_retries(&mut self, v: u32) -> (r: &mut Self)
        ensures
            r@ == (GlobalOptsView { retries: Some(v), ..old(self)@ }),
            *final(self) == *final(r),
    {
        self.retries = Some(v);
        self
    }

    /// `-r retries`: the number of times to retry a command when the connection fails.
    pub fn retries(self, v: u32) -> (r: Self)
        ensures
            r@ == (GlobalOptsView { retries: Some(v), ..self@ }),
    {
        let mut s = self;
        s.retries = Some(v);
        s
    }

    /// `-s`: prepends a descriptive field (`info:`, `error:`, ...) to each line of output.
    pub fn get_prepend_descriptive(&self) -> (r: bool)
        ensures
            r == self@.prepend_descriptive,
    {
        self.prepend_descriptive
    }

    /// `-s`: prepends a descriptive field (`info:`, `error:`, ...) to each line of output.
    pub fn set_prepend_descriptive(&mut self, v: bool) -> (r: &mut Self)
        ensures
            r@ == (GlobalOptsView { prepend_descriptive: v, ..old(self)@ }),
            *final(self) == *final(r),
    {
        self.prepend_descriptive = v;
        self
    }

    /// `-s`: prepends a descriptive field (`info:`, `error:`, ...) to each line of output.
    pub fn prepend_descriptive(self, v: bool) -> (r: Self)
        ensures
            r@ == (GlobalOptsView { prepend_descriptive: v, ..self@ }),
    {
        let mut s = self;
        s.prepend_descriptive = v;
        s
    }

    /// `-u user`: overrides the `P4USER` user name.
    pub fn get_user(&self) -> (r: Option<&String>)
        ensures
            opt_ref_view(r) == self@.user,
    {
        self.user.as_ref()
    }

    /// `-u user`: overrides the `P4USER` user name.
    pub fn set_user(&mut self, v: &str) -> (r: &mut Self)
        ensures
            r@ == (GlobalOptsView { user: Some(v@), ..old(self)@ }),
            *final(self) == *final(r),
    {
        self.user = Some(v.to_owned());
        self
    }

    /// `-u user`: overrides the `P4USER` user name.
    pub fn user(self, v: &str) -> (r: Self)
        ensures
            r@ == (GlobalOptsView { user: Some(v@), ..self@ }),
    {
        let mut s = self;
        s.user = Some(v.to_owned());
        s
    }

    /// `-x argfile`: reads arguments, one per line, from the named file.
    pub fn get_argfile(&self) -> (r: Option<&String>)
        ensures
            opt_ref_view(r) == self@.argfile,
    {
        self.argfile.as_ref()
    }

    /// `-x argfile`: reads arguments, one per line, from the named file.
    pub fn set_argfile(&mut self, v: &str) -> (r: &mut Self)
        ensures
            r@ == (GlobalOptsView { argfile: Some(v@), ..old(self)@ }),
            *final(self) == *final(r),
    {
        self.argfile = Some(v.to_owned());
        self
    }

    /// `-x argfile`: reads arguments, one per line, from the named file.
    pub fn argfile(self, v: &str) -> (r: Self)
        ensures
            r@ == (GlobalOptsView { argfile: Some(v@), ..self@ }),
    {
        let mut s = self;
        s.argfile = Some(v.to_owned());
        s
    }

    /// `-C charset`: overrides the `P4CHARSET` character set.
    pub fn get_charset(&self) -> (r: Option<&String>)
        ensures
            opt_ref_view(r) == self@.charset,
    {
        self.charset.as_ref()
    }

    /// `-C charset`: overrides the `P4CHARSET` character set.
    pub fn set_charset(&mut self, v: &str) -> (r: &mut Self)
        ensures
            r@ == (GlobalOptsView { charset: Some(v@), ..old(self)@ }),
            *final(self) == *final(r),
    {
        self.charset = Some(v.to_owned());
        self
    }

    /// `-C charset`: overrides the `P4CHARSET` character set.
    pub fn charset(self, v: &str) -> (r: Self)
        ensures
            r@ == (GlobalOptsView { charset: Some(v@), ..self@ }),
    {
        let mut s = self;
        s.charset = Some(v.to_owned());
        s
    }

    /// `-Q charset`: overrides the `P4COMMANDCHARSET` character set.
    pub fn get_command_charset(&self) -> (r: Option<&String>)
        ensures
            opt_ref_view(r) == self@.command_charset,
    {
        self.command_charset.as_ref()
    }

    /// `-Q charset`: overrides the `P4COMMANDCHARSET` character set.
    pub fn set_command_charset(&mut self, v: &str) -> (r: &mut Self)
        ensures
            r@ == (GlobalOptsView { command_charset: Some(v@), ..old(self)@ }),
            *final(self) == *final(r),
    {
        self.command_charset = Some(v.to_owned());
        self
    }

    /// `-Q charset`: overrides the `P4COMMANDCHARSET` character set.
    pub fn command_charset(self, v: &str) -> (r: Self)
        ensures
            r@ == (GlobalOptsView { command_charset: Some(v@), ..self@ }),
    {
        let mut s = self;
        s.command_charset = Some(v.to_owned());
        s
    }

    /// `-L language`: the language for text messages from the server.
    pub fn get_language(&self) -> (r: Option<&String>)
        ensures
            opt_ref_view(r) == self@.language,
    {
        self.language.as_ref()
    }

    /// `-L language`: the language for text messages from the server.
    pub fn set_language(&mut self, v: &str) -> (r: &mut Self)
        ensures
            r@ == (GlobalOptsView { language: Some(v@), ..old(self)@ }),
            *final(self) == *final(r),
    {
        self.language = Some(v.to_owned());
        self
    }

    /// `-L language`: the language for text messages from the server.
    pub fn language(self, v: &str) -> (r: Self)
        ensures
            r@ == (GlobalOptsView { language: Some(v@), ..self@ }),
    {
        let mut s = self;
        s.language = Some(v.to_owned());
        s
    }

    /// `-z tag`: writes output in tagged (key/value) format.
    pub fn get_tagged_format(&self) -> (r: bool)
        ensures
            r == self@.tagged_format,
    {
        self.tagged_format
    }

    /// `-z tag`: writes output in tagged (key/value) format.
    pub fn set_tagged_format(&mut self, v: bool) -> (r: &mut Self)
        ensures
            r@ == (GlobalOptsView { tagged_format: v, ..old(self)@ }),
            *final(self) == *final(r),
    {
        self.tagged_format = v;
        self
    }

    /// `-z tag`: writes output in tagged (key/value) format.
    pub fn tagged_format(self, v: bool) -> (r: Self)
        ensures
            r@ == (GlobalOptsView { tagged_format: v, ..self@ }),
    {
        let mut s = self;
        s.tagged_format = v;
        s
    }

    /// `-q`: suppresses all informational messages.
    pub fn get_quiet_mode(&self) -> (r: bool)
        ensures
            r == self@.quiet_mode,
    {
        self.quiet_mode
    }

    /// `-q`: suppresses all informational messages.
    pub fn set_quiet_mode(&mut self, v: bool) -> (r: &mut Self)
        ensures
            r@ == (GlobalOptsView { quiet_mode: v, ..old(self)@ }),
            *final(self) == *final(r),
    {
        self.quiet_mode = v;
        self
    }

    /// `-q`: suppresses all informational messages.
    pub fn quiet_mode(self, v: bool) -> (r: Self)
        ensures
            r@ == (GlobalOptsView { quiet_mode: v, ..self@ }),
    {
        let mut s = self;
        s.quiet_mode = v;
        s
    }

    /// `-v debug-variable`: sets a debugging or logging level; each call adds one `-v`.
    pub fn get_debug_variable(&self) -> (r: Option<&[String]>)
        ensures
            opt_slice_view(r) == self@.debug_variable,
    {
        opt_as_slice(&self.debug_variable)
    }

    /// `-v debug-variable`: sets a debugging or logging level; each call adds one `-v`.
    pub fn set_debug_variable(&mut self, v: &str) -> (r: &mut Self)
        ensures
            r@ == (GlobalOptsView {
                debug_variable: opt_push(old(self)@.debug_variable, v@),
                ..old(self)@
            }),
            *final(self) == *final(r),
    {
        opt_vec_push(&mut self.debug_variable, v.to_owned());
        self
    }

    /// `-v debug-variable`: sets a debugging or logging level; each call adds one `-v`.
    pub fn debug_variable(self, v: &str) -> (r: Self)
        ensures
            r@ == (GlobalOptsView { debug_variable: opt_push(self@.debug_variable, v@), ..self@ }),
    {
        let mut s = self;
        opt_vec_push(&mut s.debug_variable, v.to_owned());
        s
    }

    /// `-V`: displays the version of the `p4` application and exits.
    pub fn get_display_version(&self) -> (r: bool)
        ensures
            r == self@.display_version,
    {
        self.display_version
    }

    /// `-V`: displays the version of the `p4` application and exits.
    pub fn set_display_version(&mut self, v: bool) -> (r: &mut Self)
        ensures
            r@ == (GlobalOptsView { display_version: v, ..old(self)@ }),
            *final(self) == *final(r),
    {
        self.display_version = v;
        self
    }

    /// `-V`: displays the version of the `p4` application and exits.
    pub fn display_version(self, v: bool) -> (r: Self)
        ensures
            r@ == (GlobalOptsView { display_version: v, ..self@ }),
    {
        let mut s = self;
        s.display_version = v;
        s
    }

    /// `-h`: displays basic usage information and exits.
    pub fn get_display_help(&self) -> (r: bool)
        ensures
            r == self@.display_help,
    {
        self.display_help
    }

    /// `-h`: displays basic usage information and exits.
    pub fn set_display_help(&mut self, v: bool) -> (r: &mut Self)
        ensures
            r@ == (GlobalOptsView { display_help: v, ..old(self)@ }),
            *final(self) == *final(r),
    {
        self.display_help = v;
        self
    }

    /// `-h`: displays basic usage information and exits.
    pub fn display_help(self, v: bool) -> (r: Self)
        ensures
            r@ == (GlobalOptsView { display_help: v, ..self@ }),
    {
        let mut s = self;
        s.display_help = v;
        s
    }

}

} // verus!
