# perforce_cli

Builders for `p4` (Perforce Helix Core) command lines, with their behaviour
stated in contracts and proved by Verus.

Each command (`add`, `admin`, `aliases`, `annotate`, `archive`, `attribute`,
`changes`, `describe`, `diff`, `diff2`, `edit`, `filelog`, `print`, `sync`,
`where`) has a builder whose options are set with a consuming builder method
(`x(v)`), a `&mut self` setter (`set_x(v)`) and a getter (`get_x()`).
Mutually exclusive options are selected through a mode type parameter, so a
combination that `p4` refuses cannot be built.

The contracts speak of the argument list as a sequence of strings: the
global options first in a fixed order, then the
command name, then the command's own options in a fixed order. Operands
(files, changelists) are appended to the resulting `CommandLine`.

Layout:

- `src/argv.rs`: the argument pieces every builder is made of (flags, values,
  repeated options, decimal numbers) and the helpers that push them.
- `src/command.rs`: `CommandLine`, a program and its arguments.
- `src/global.rs`: `GlobalOpts`, the options shared by every command.
- `src/cmd.rs` and `src/cmd/`: one module per command, the diff options, and
  the `SubCommand` / `ExclusiveOption` traits.
- `src/laws.rs`: properties across builders (unset options contribute
  nothing, global options appear once, selecting a mode keeps the options set
  before).
- `src/lib.rs`: `P4Cli`, the client that hands its executable and global
  options to every command.
- `app/`: running a `CommandLine` as a process (`spawn`, `output` and their
  variants by number of operands).
