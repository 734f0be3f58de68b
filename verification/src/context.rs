//! The execution-context model: a value object describing one remote-execution
//! request — working directory, command, ordered argument list, and ordered
//! environment pairs. Built once by the client, immutable after serialization.
use vstd::prelude::*;

verus! {

/// Mathematical model of an [`ExecutionContext`]: every field as a sequence
/// of characters, arguments and environment pairs in their original order.
#[verifier::ext_equal]
pub struct ContextView {
    pub working_dir: Seq<char>,
    pub command: Seq<char>,
    pub args: Seq<Seq<char>>,
    pub env: Seq<(Seq<char>, Seq<char>)>,
}

/// One remote-execution request: the command to run, where, with which
/// arguments and environment. Argument order and environment-pair order are
/// significant and are preserved exactly by the codec; duplicate environment
/// keys are permitted and kept as-is.
#[derive(Debug, Clone, PartialEq)]
pub struct ExecutionContext {
    pub working_dir: String,
    pub command: String,
    pub args: Vec<String>,
    pub env: Vec<(String, String)>,
}

impl View for ExecutionContext {
    type V = ContextView;

    open spec fn view(&self) -> ContextView {
        ContextView {
            working_dir: self.working_dir@,
            command: self.command@,
            args: self.args.deep_view(),
            env: self.env@.map_values(|p: (String, String)| (p.0@, p.1@)),
        }
    }
}

impl ExecutionContext {
    /// A fresh context with the given working directory and command and no
    /// arguments or environment pairs.
    pub fn new(working_dir: String, command: String) -> (r: Self)
        ensures
            r@.working_dir == working_dir@,
            r@.command == command@,
            r@.args == Seq::<Seq<char>>::empty(),
            r@.env == Seq::<(Seq<char>, Seq<char>)>::empty(),
    {
        let r = Self { working_dir, command, args: Vec::new(), env: Vec::new() };
        proof {
            assert(r@.args =~= Seq::<Seq<char>>::empty());
            assert(r@.env =~= Seq::<(Seq<char>, Seq<char>)>::empty());
        }
        r
    }

    /// Appends one argument; every other field is unchanged.
    pub fn with_arg(self, arg: String) -> (r: Self)
        ensures
            r@.working_dir == self@.working_dir,
            r@.command == self@.command,
            r@.args == self@.args.push(arg@),
            r@.env == self@.env,
    {
        let ghost before = self@;
        let mut this = self;
        this.args.push(arg);
        proof {
            assert(this@.args =~= before.args.push(arg@));
        }
        this
    }

    /// Appends a list of arguments, in order; every other field is unchanged.
    pub fn with_args(self, args: Vec<String>) -> (r: Self)
        ensures
            r@.working_dir == self@.working_dir,
            r@.command == self@.command,
            r@.args == self@.args + args.deep_view(),
            r@.env == self@.env,
    {
        let ghost before = self@;
        let ghost added = args.deep_view();
        let mut this = self;
        let mut rest = args;
        this.args.append(&mut rest);
        proof {
            assert(this@.args =~= before.args + added);
        }
        this
    }

    /// Appends one environment pair; every other field is unchanged.
    pub fn with_env(self, key: String, value: String) -> (r: Self)
        ensures
            r@.working_dir == self@.working_dir,
            r@.command == self@.command,
            r@.args == self@.args,
            r@.env == self@.env.push((key@, value@)),
    {
        let ghost before = self@;
        let mut this = self;
        this.env.push((key, value));
        proof {
            assert(this@.env =~= before.env.push((key@, value@)));
        }
        this
    }
}

} // verus!
