//! External-process invocations: a `CommandSpec` describes one invocation
//! (program, ordered arguments, additive environment overrides, optional
//! working directory), and `execute` runs an ordered pipeline of them with
//! fail-fast semantics: the first step that does not succeed aborts the
//! pipeline and no later step is started.

use vstd::prelude::*;

verus! {

/// Mathematical view of one external-process invocation.
#[verifier::ext_equal]
pub struct SpecCommand {
    pub program: Seq<char>,
    pub args: Seq<Seq<char>>,
    pub env: Seq<(Seq<char>, Seq<char>)>,
    pub dir: Option<Seq<char>>,
}

/// The views of a sequence of strings.
pub open spec fn str_views(s: Seq<String>) -> Seq<Seq<char>> {
    s.map_values(|x: String| x@)
}

/// The views of a sequence of string pairs.
pub open spec fn pair_views(s: Seq<(String, String)>) -> Seq<(Seq<char>, Seq<char>)> {
    s.map_values(|p: (String, String)| (p.0@, p.1@))
}

/// One external invocation: program name, ordered argument list,
/// environment-variable overrides, and an optional working directory.
/// Immutable once constructed.
pub struct CommandSpec {
    pub program: String,
    pub args: Vec<String>,
    pub env: Vec<(String, String)>,
    pub dir: Option<String>,
}

impl View for CommandSpec {
    type V = SpecCommand;

    open spec fn view(&self) -> SpecCommand {
        SpecCommand {
            program: self.program@,
            args: str_views(self.args@),
            env: pair_views(self.env@),
            dir: match self.dir {
                Option::Some(d) => Option::Some(d@),
                Option::None => Option::None,
            },
        }
    }
}

/// A `SpecCommand` with no environment overrides and no working directory.
pub open spec fn plain_command(program: Seq<char>, args: Seq<Seq<char>>) -> SpecCommand {
    SpecCommand { program, args, env: Seq::empty(), dir: Option::None }
}

impl CommandSpec {
    /// A new invocation of `program` with the given arguments, inheriting
    /// the whole process environment and the current working directory.
    pub fn new(program: &str, args: Vec<String>) -> (r: CommandSpec)
        ensures
            r@ == plain_command(program@, str_views(args@)),
    {
        let r = CommandSpec {
            program: String::from_str(program),
            args,
            env: Vec::new(),
            dir: Option::None,
        };
        proof {
            assert(r@.env =~= Seq::<(Seq<char>, Seq<char>)>::empty());
            assert(r@ =~= plain_command(program@, str_views(r.args@)));
        }
        r
    }

    /// The same invocation with one more environment override appended;
    /// a key present in both the inherited environment and the overrides
    /// takes the override's value when the command runs.
    pub fn env(self, key: &str, val: &str) -> (r: CommandSpec)
        ensures
            r@.program == self@.program,
            r@.args == self@.args,
            r@.env == self@.env.push((key@, val@)),
            r@.dir == self@.dir,
    {
        let mut env = self.env;
        env.push((String::from_str(key), String::from_str(val)));
        let r = CommandSpec { program: self.program, args: self.args, env, dir: self.dir };
        proof {
            assert(r@.env =~= self@.env.push((key@, val@)));
        }
        r
    }
}

/// The views of a sequence of invocations.
pub open spec fn command_views(s: Seq<CommandSpec>) -> Seq<SpecCommand> {
    s.map_values(|c: CommandSpec| c@)
}

/// The identity of a pipeline step that did not succeed: its position in
/// the pipeline and the program it would have run.
pub struct StepFailure {
    pub index: usize,
    pub program: String,
}

/// Relies on duct::cmd and duct::Expression::{env, dir, run}: builds the
/// invocation that `spec` describes, runs it synchronously with inherited
/// standard streams, and waits; `run` returns `Err` when the child cannot
/// be spawned or exits with a non-zero status, `Ok` otherwise.
#[verifier::external_body]
fn run_command(spec: &CommandSpec) -> bool {
    let mut e = duct::cmd(&spec.program, &spec.args);
    for (k, v) in &spec.env {
        e = e.env(k, v);
    }
    if let Some(d) = &spec.dir {
        e = e.dir(d.as_str());
    }
    e.run().is_ok()
}

/// Relies on duct::cmd and duct::Expression::{env, dir, read}: runs the
/// invocation that `spec` describes with its standard output captured, and
/// returns that output with trailing newlines trimmed; `None` when the
/// child cannot be spawned, exits non-zero, or emits invalid UTF-8.
#[verifier::external_body]
fn read_command(spec: &CommandSpec) -> Option<String> {
    let mut e = duct::cmd(&spec.program, &spec.args);
    for (k, v) in &spec.env {
        e = e.env(k, v);
    }
    if let Some(d) = &spec.dir {
        e = e.dir(d.as_str());
    }
    e.read().ok()
}

/// Runs one invocation, inheriting standard streams; `true` means the
/// child ran and exited with status zero.
pub fn run_step(spec: &CommandSpec) -> bool {
    run_command(spec)
}

/// Runs one invocation with standard output captured; `Some` holds the
/// captured output (trailing newlines trimmed) of a child that exited
/// with status zero.
pub fn read_step(spec: &CommandSpec) -> Option<String> {
    read_command(spec)
}

/// Runs the pipeline in order, synchronously, fail-fast: the first step
/// that does not succeed aborts the pipeline, no later step is started,
/// and the result identifies that step. An empty pipeline succeeds.
pub fn execute(specs: &Vec<CommandSpec>) -> (r: Result<(), StepFailure>)
    ensures
        specs@.len() == 0 ==> r is Ok,
        (r matches Err(f) ==> f.index < specs@.len()
            && f.program@ == specs@[f.index as int]@.program),
{
    let mut i: usize = 0;
    while i < specs.len()
        invariant
            i <= specs@.len(),
        decreases specs@.len() - i,
    {
        if !run_step(&specs[i]) {
            return Result::Err(StepFailure { index: i, program: specs[i].program.clone() });
        }
        i = i + 1;
    }
    Result::Ok(())
}

} // verus!
