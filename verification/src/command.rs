//! The command line that a builder assembles: the program to run and its
//! arguments, in order. Running it is left to the caller.
use vstd::prelude::*;

verus! {

/// A program together with the arguments it is to be started with.
#[derive(Debug, Clone)]
pub struct CommandLine {
    program: String,
    args: Vec<String>,
}

/// The mathematical view of a [`CommandLine`].
pub struct CommandLineView {
    pub program: Seq<char>,
    pub args: Seq<Seq<char>>,
}

impl View for CommandLine {
    type V = CommandLineView;

    closed spec fn view(&self) -> CommandLineView {
        CommandLineView { program: self.program@, args: self.args.deep_view() }
    }
}

impl CommandLine {
    /// A command line that runs `program` without arguments.
    pub fn new(program: &str) -> (c: CommandLine)
        ensures
            c@.program == program@,
            c@.args == Seq::<Seq<char>>::empty(),
    {
        let args: Vec<String> = Vec::new();
        assert(args.deep_view() =~= Seq::<Seq<char>>::empty());
        CommandLine { program: String::from_str(program), args }
    }

    /// A command line that runs `program` with the given arguments.
    pub fn with_args(program: &str, args: Vec<String>) -> (c: CommandLine)
        ensures
            c@.program == program@,
            c@.args == args.deep_view(),
    {
        CommandLine { program: String::from_str(program), args }
    }

    /// The program to run.
    pub fn get_program(&self) -> (r: &str)
        ensures
            r@ == self@.program,
    {
        self.program.as_str()
    }

    /// The arguments, in order.
    pub fn get_args(&self) -> (r: &[String])
        ensures
            r.deep_view() == self@.args,
    {
        self.args.as_slice()
    }

    /// Appends one argument.
    pub fn arg(&mut self, arg: &str) -> (r: &mut Self)
        ensures
            r@.program == old(self)@.program,
            r@.args == old(self)@.args.push(arg@),
            *final(self) == *final(r),
    {
        self.args.push(String::from_str(arg));
        assert(self.args.deep_view() =~= old(self)@.args.push(arg@));
        self
    }

    /// Appends several arguments, in order.
    pub fn args(&mut self, items: &[&str]) -> (r: &mut Self)
        ensures
            r@.program == old(self)@.program,
            r@.args == old(self)@.args + items@.map_values(|s: &str| s@),
            *final(self) == *final(r),
    {
        let ghost mapped = items@.map_values(|s: &str| s@);
        let mut i: usize = 0;
        while i < items.len()
            invariant
                i <= items.len(),
                mapped == items@.map_values(|s: &str| s@),
                self.program@ == old(self)@.program,
                self.args.deep_view() =~= old(self)@.args + mapped.take(i as int),
            decreases items.len() - i,
        {
            let ghost before = self.args.deep_view();
            self.args.push(String::from_str(items[i]));
            assert(mapped[i as int] == items[i as int]@);
            assert(self.args.deep_view() =~= before.push(items[i as int]@));
            assert(mapped.take(i + 1) =~= mapped.take(i as int).push(mapped[i as int]));
            i = i + 1;
        }
        assert(mapped.take(items.len() as int) =~= mapped);
        self
    }
}

} // verus!
