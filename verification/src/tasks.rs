//! Complete tasks: CI runs, feature-powerset runs, coverage, and a few
//! single-shot helpers. Each task assembles a fixed, fully specified
//! sequence of external-process invocations and executes it fail-fast.

use vstd::prelude::*;
use crate::command::{
    command_views, execute, plain_command, read_step, run_step, str_views, CommandSpec,
    SpecCommand,
};
use crate::ops::{
    clean_files, create_dir_if_missing, get_clean_directory, get_workspace_root,
    nearest_cargo_dir, OpsError,
};
use crate::textfmt::{
    dec_rep_int, i32_dec_string, join_path, joined_path, parse_rate_scaled, percent_string,
    percent_string_spec, rate_scaled_spec, str_eq,
};
use std::io::Write;

verus! {

/// Relies on std::io::Stdout::write_fmt, through writeln: prints one
/// line to standard output.
#[verifier::external_body]
fn print_line(line: &str) {
    let mut out = std::io::stdout();
    let _ = writeln!(out, "{}", line);
}

/// A structured failure from a task.
#[derive(Debug)]
pub enum TaskError {
    /// A pipeline step did not succeed: its position and its program.
    Step { index: usize, program: String },
    /// A filesystem or workspace operation failed before the pipeline.
    Ops { source: OpsError },
    /// The requested coverage output format is not supported.
    UnsupportedFormat { fmt: String },
    /// The queried report attribute is not a decimal number.
    NotNumeric,
}

/// Build a CI run.
#[derive(PartialEq, Eq, Structural, Clone, Copy, Debug)]
pub struct CI {
    /// Run the format check with a nightly-toolchain prefix.
    /// Default: off.
    pub nightly: bool,
    /// Turn all extended lint categories on: pedantic, nursery, 2018
    /// idioms. Default: on.
    pub clippy_max: bool,
}

/// Builds a `CI` configuration, applying a default for every field left
/// unset.
#[derive(Clone, Copy, Debug)]
pub struct CIBuilder {
    pub nightly: Option<bool>,
    pub clippy_max: Option<bool>,
}

/// The effective configuration a builder denotes: unset fields take
/// their defaults (`nightly` false, `clippy_max` true).
pub open spec fn ci_of_builder(b: CIBuilder) -> CI {
    CI {
        nightly: match b.nightly {
            Option::Some(v) => v,
            Option::None => false,
        },
        clippy_max: match b.clippy_max {
            Option::Some(v) => v,
            Option::None => true,
        },
    }
}

impl Default for CIBuilder {
    /// A builder with every field unset.
    fn default() -> (r: Self)
        ensures
            r.nightly is None,
            r.clippy_max is None,
    {
        CIBuilder { nightly: Option::None, clippy_max: Option::None }
    }
}

/// The format-check arguments: with `nightly`, a toolchain-selection
/// prefix stands before the rest.
pub open spec fn fmt_check_args(nightly: bool) -> Seq<Seq<char>> {
    if nightly {
        seq!["+nightly"@, "fmt"@, "--all"@, "--"@, "--check"@]
    } else {
        seq!["fmt"@, "--all"@, "--"@, "--check"@]
    }
}

/// The lint arguments: warnings are errors; with `clippy_max`, the
/// extended lint categories are opted in after that.
pub open spec fn clippy_args(clippy_max: bool) -> Seq<Seq<char>> {
    if clippy_max {
        seq![
            "clippy"@,
            "--"@,
            "-D"@,
            "warnings"@,
            "-W"@,
            "clippy::pedantic"@,
            "-W"@,
            "clippy::nursery"@,
            "-W"@,
            "rust-2018-idioms"@,
        ]
    } else {
        seq!["clippy"@, "--"@, "-D"@, "warnings"@]
    }
}

pub open spec fn test_args() -> Seq<Seq<char>> {
    seq!["test"@]
}

pub open spec fn doc_test_args() -> Seq<Seq<char>> {
    seq!["test"@, "--doc"@]
}

/// The four invocations of a CI run, in their fixed order: format
/// check, lint, unit tests, doc tests.
pub open spec fn ci_plan_spec(t: CI) -> Seq<SpecCommand> {
    seq![
        plain_command("cargo"@, fmt_check_args(t.nightly)),
        plain_command("cargo"@, clippy_args(t.clippy_max)),
        plain_command("cargo"@, test_args()),
        plain_command("cargo"@, doc_test_args()),
    ]
}

/// Builds the four invocations of a CI run.
pub fn ci_plan(t: &CI) -> (r: Vec<CommandSpec>)
    ensures
        command_views(r@) == ci_plan_spec(*t),
{
    let mut fmt_args: Vec<String> = Vec::new();
    if t.nightly {
        fmt_args.push(String::from_str("+nightly"));
    }
    fmt_args.push(String::from_str("fmt"));
    fmt_args.push(String::from_str("--all"));
    fmt_args.push(String::from_str("--"));
    fmt_args.push(String::from_str("--check"));
    let ghost fav = fmt_args@;
    let c0 = CommandSpec::new("cargo", fmt_args);

    let mut lint_args: Vec<String> = Vec::new();
    lint_args.push(String::from_str("clippy"));
    lint_args.push(String::from_str("--"));
    lint_args.push(String::from_str("-D"));
    lint_args.push(String::from_str("warnings"));
    if t.clippy_max {
        lint_args.push(String::from_str("-W"));
        lint_args.push(String::from_str("clippy::pedantic"));
        lint_args.push(String::from_str("-W"));
        lint_args.push(String::from_str("clippy::nursery"));
        lint_args.push(String::from_str("-W"));
        lint_args.push(String::from_str("rust-2018-idioms"));
    }
    let ghost lav = lint_args@;
    let c1 = CommandSpec::new("cargo", lint_args);

    let mut t_args: Vec<String> = Vec::new();
    t_args.push(String::from_str("test"));
    let ghost tav = t_args@;
    let c2 = CommandSpec::new("cargo", t_args);

    let mut d_args: Vec<String> = Vec::new();
    d_args.push(String::from_str("test"));
    d_args.push(String::from_str("--doc"));
    let ghost dav = d_args@;
    let c3 = CommandSpec::new("cargo", d_args);

    let mut plan: Vec<CommandSpec> = Vec::new();
    plan.push(c0);
    plan.push(c1);
    plan.push(c2);
    plan.push(c3);
    proof {
        assert(str_views(fav) =~= fmt_check_args(t.nightly));
        assert(str_views(lav) =~= clippy_args(t.clippy_max));
        assert(str_views(tav) =~= test_args());
        assert(str_views(dav) =~= doc_test_args());
        assert(command_views(plan@) =~= ci_plan_spec(*t));
    }
    plan
}

impl CIBuilder {
    /// The same builder with `nightly` set.
    pub fn nightly(self, value: bool) -> (r: Self)
        ensures
            r.nightly == Option::Some(value),
            r.clippy_max == self.clippy_max,
    {
        CIBuilder { nightly: Option::Some(value), clippy_max: self.clippy_max }
    }

    /// The same builder with `clippy_max` set.
    pub fn clippy_max(self, value: bool) -> (r: Self)
        ensures
            r.clippy_max == Option::Some(value),
            r.nightly == self.nightly,
    {
        CIBuilder { nightly: self.nightly, clippy_max: Option::Some(value) }
    }

    /// The effective configuration: a default for every unset field.
    pub fn build(&self) -> (t: CI)
        ensures
            t == ci_of_builder(*self),
    {
        let nightly = match self.nightly {
            Option::Some(v) => v,
            Option::None => false,
        };
        let clippy_max = match self.clippy_max {
            Option::Some(v) => v,
            Option::None => true,
        };
        CI { nightly, clippy_max }
    }

    /// Builds the effective configuration and executes its four
    /// invocations in order — format check, lint, unit tests, doc tests
    /// — fail-fast: the first failing step aborts the run and is
    /// reported, and no later step is started.
    pub fn run(&self) -> (r: Result<(), TaskError>)
        ensures
            r matches Err(e) ==> e matches TaskError::Step { index, program } && index < 4
                && program@ == "cargo"@,
    {
        let t = self.build();
        let plan = ci_plan(&t);
        match execute(&plan) {
            Ok(()) => Ok(()),
            Err(f) => {
                proof {
                    assert(command_views(plan@).len() == plan@.len());
                    assert(plan@.len() == 4);
                    assert(command_views(plan@)[f.index as int] == plan@[f.index as int]@);
                    assert(ci_plan_spec(t)[f.index as int].program == "cargo"@);
                }
                Err(TaskError::Step { index: f.index, program: f.program })
            },
        }
    }
}

/// With no explicit overrides, a CI run checks formatting without a
/// nightly-toolchain prefix and lints with the extended categories on:
/// the defaults are `nightly` false and `clippy_max` true.
pub proof fn lemma_ci_default_plan(b: CIBuilder)
    requires
        b.nightly is None,
        b.clippy_max is None,
    ensures
        ci_of_builder(b) == (CI { nightly: false, clippy_max: true }),
        ci_plan_spec(ci_of_builder(b))[0].args == fmt_check_args(false),
        ci_plan_spec(ci_of_builder(b))[0].args[0] == "fmt"@,
        ci_plan_spec(ci_of_builder(b))[1].args == clippy_args(true),
        ci_plan_spec(ci_of_builder(b))[1].args.contains("clippy::pedantic"@),
        ci_plan_spec(ci_of_builder(b))[1].args.contains("clippy::nursery"@),
        ci_plan_spec(ci_of_builder(b))[1].args.contains("rust-2018-idioms"@),
{
    let args = ci_plan_spec(ci_of_builder(b))[1].args;
    assert(args[5] == "clippy::pedantic"@);
    assert(args[7] == "clippy::nursery"@);
    assert(args[9] == "rust-2018-idioms"@);
}

/// Run typical CI tasks in series: format check, lint, and tests, with
/// the default configuration.
pub fn ci() -> (r: Result<(), TaskError>)
    ensures
        r matches Err(e) ==> e matches TaskError::Step { index, program } && index < 4
            && program@ == "cargo"@,
{
    CIBuilder::default().run()
}

/// Build a powerset test run.
#[derive(PartialEq, Eq, Structural, Clone, Copy, Debug)]
pub struct Powerset {
    /// Maximal feature-combination depth to test. Default: 2.
    pub depth: i32,
    /// Leave out the run with no features at all. Default: off.
    pub exclude_no_default_features: bool,
}

/// Builds a `Powerset` configuration, applying a default for every field
/// left unset.
#[derive(Clone, Copy, Debug)]
pub struct PowersetBuilder {
    pub depth: Option<i32>,
    pub exclude_no_default_features: Option<bool>,
}

/// The effective configuration a builder denotes: unset fields take
/// their defaults (`depth` 2, `exclude_no_default_features` false).
pub open spec fn powerset_of_builder(b: PowersetBuilder) -> Powerset {
    Powerset {
        depth: match b.depth {
            Option::Some(v) => v,
            Option::None => 2,
        },
        exclude_no_default_features: match b.exclude_no_default_features {
            Option::Some(v) => v,
            Option::None => false,
        },
    }
}

impl Default for PowersetBuilder {
    /// A builder with every field unset.
    fn default() -> (r: Self)
        ensures
            r.depth is None,
            r.exclude_no_default_features is None,
    {
        PowersetBuilder { depth: Option::None, exclude_no_default_features: Option::None }
    }
}

impl PowersetBuilder {
    /// The same builder with `depth` set.
    pub fn depth(self, value: i32) -> (r: Self)
        ensures
            r.depth == Option::Some(value),
            r.exclude_no_default_features == self.exclude_no_default_features,
    {
        PowersetBuilder {
            depth: Option::Some(value),
            exclude_no_default_features: self.exclude_no_default_features,
        }
    }

    /// The same builder with `exclude_no_default_features` set.
    pub fn exclude_no_default_features(self, value: bool) -> (r: Self)
        ensures
            r.exclude_no_default_features == Option::Some(value),
            r.depth == self.depth,
    {
        PowersetBuilder { depth: self.depth, exclude_no_default_features: Option::Some(value) }
    }

    /// The effective configuration: a default for every unset field.
    pub fn build(&self) -> (t: Powerset)
        ensures
            t == powerset_of_builder(*self),
    {
        let depth = match self.depth {
            Option::Some(v) => v,
            Option::None => 2,
        };
        let exclude_no_default_features = match self.exclude_no_default_features {
            Option::Some(v) => v,
            Option::None => false,
        };
        Powerset { depth, exclude_no_default_features }
    }

    /// Builds the effective configuration and executes its three
    /// invocations in order — lint, unit tests, doc tests, each over the
    /// whole feature powerset — fail-fast: a lint failure short-circuits
    /// the more expensive test phases.
    pub fn run(&self) -> (r: Result<(), TaskError>)
        ensures
            r matches Err(e) ==> e matches TaskError::Step { index, program } && index < 3
                && program@ == "cargo"@,
    {
        let t = self.build();
        let plan = powerset_plan(&t);
        match execute(&plan) {
            Ok(()) => Ok(()),
            Err(f) => {
                proof {
                    assert(command_views(plan@).len() == plan@.len());
                    assert(plan@.len() == 3);
                    assert(command_views(plan@)[f.index as int] == plan@[f.index as int]@);
                    assert(powerset_plan_spec(t)[f.index as int].program == "cargo"@);
                }
                Err(TaskError::Step { index: f.index, program: f.program })
            },
        }
    }
}

/// The argument suffix every powerset invocation shares: scope to the
/// whole workspace excluding the orchestration package, enumerate the
/// feature powerset up to the configured depth, and leave out the
/// no-features run if so configured.
pub open spec fn powerset_common_args(t: Powerset) -> Seq<Seq<char>> {
    let base = seq![
        "--workspace"@,
        "--exclude"@,
        "xtask"@,
        "--feature-powerset"@,
        "--depth"@,
        dec_rep_int(t.depth as int),
    ];
    if t.exclude_no_default_features {
        base.push("--exclude-no-default-features"@)
    } else {
        base
    }
}

/// The three invocations of a powerset run, in their fixed order: lint
/// with warnings as errors, unit tests, doc tests, each over every
/// feature combination.
pub open spec fn powerset_plan_spec(t: Powerset) -> Seq<SpecCommand> {
    seq![
        plain_command(
            "cargo"@,
            seq!["hack"@, "clippy"@] + powerset_common_args(t) + seq!["--"@, "-D"@, "warnings"@],
        ),
        plain_command("cargo"@, seq!["hack"@] + powerset_common_args(t) + seq!["test"@]),
        plain_command("cargo"@, seq!["hack"@, "test"@] + powerset_common_args(t) + seq!["--doc"@]),
    ]
}

/// Builds the shared argument suffix of a powerset run.
fn powerset_common(t: &Powerset) -> (r: Vec<String>)
    ensures
        str_views(r@) == powerset_common_args(*t),
{
    let mut args: Vec<String> = Vec::new();
    args.push(String::from_str("--workspace"));
    args.push(String::from_str("--exclude"));
    args.push(String::from_str("xtask"));
    args.push(String::from_str("--feature-powerset"));
    args.push(String::from_str("--depth"));
    args.push(i32_dec_string(t.depth));
    if t.exclude_no_default_features {
        args.push(String::from_str("--exclude-no-default-features"));
    }
    proof {
        assert(str_views(args@) =~= powerset_common_args(*t));
    }
    args
}

/// Builds the three invocations of a powerset run.
pub fn powerset_plan(t: &Powerset) -> (r: Vec<CommandSpec>)
    ensures
        command_views(r@) == powerset_plan_spec(*t),
{
    let mut a0: Vec<String> = Vec::new();
    a0.push(String::from_str("hack"));
    a0.push(String::from_str("clippy"));
    let mut common0 = powerset_common(t);
    a0.append(&mut common0);
    a0.push(String::from_str("--"));
    a0.push(String::from_str("-D"));
    a0.push(String::from_str("warnings"));
    let ghost v0 = a0@;
    let c0 = CommandSpec::new("cargo", a0);

    let mut a1: Vec<String> = Vec::new();
    a1.push(String::from_str("hack"));
    let mut common1 = powerset_common(t);
    a1.append(&mut common1);
    a1.push(String::from_str("test"));
    let ghost v1 = a1@;
    let c1 = CommandSpec::new("cargo", a1);

    let mut a2: Vec<String> = Vec::new();
    a2.push(String::from_str("hack"));
    a2.push(String::from_str("test"));
    let mut common2 = powerset_common(t);
    a2.append(&mut common2);
    a2.push(String::from_str("--doc"));
    let ghost v2 = a2@;
    let c2 = CommandSpec::new("cargo", a2);

    let mut plan: Vec<CommandSpec> = Vec::new();
    plan.push(c0);
    plan.push(c1);
    plan.push(c2);
    proof {
        assert(str_views(v0) =~= seq!["hack"@, "clippy"@] + powerset_common_args(*t) + seq![
            "--"@,
            "-D"@,
            "warnings"@,
        ]);
        assert(str_views(v1) =~= seq!["hack"@] + powerset_common_args(*t) + seq!["test"@]);
        assert(str_views(v2) =~= seq!["hack"@, "test"@] + powerset_common_args(*t) + seq![
            "--doc"@,
        ]);
        assert(command_views(plan@) =~= powerset_plan_spec(*t));
    }
    plan
}

/// Every invocation of a powerset run carries the depth token: the
/// decimal rendering of the configured depth stands in each of the three
/// argument lists.
pub proof fn lemma_powerset_depth_token(t: Powerset)
    ensures
        forall|k: int|
            0 <= k < 3 ==> powerset_plan_spec(t)[k].args.contains(
                dec_rep_int(t.depth as int),
            ),
{
    let d = dec_rep_int(t.depth as int);
    let plan = powerset_plan_spec(t);
    assert(powerset_common_args(t)[5] == d);
    assert forall|k: int| 0 <= k < 3 implies plan[k].args.contains(d) by {
        if k == 0 {
            assert(plan[0].args[7] == d);
        } else if k == 1 {
            assert(plan[1].args[6] == d);
        } else {
            assert(plan[2].args[7] == d);
        }
    }
}

/// Perform a CI build over the powerset of features, with the default
/// configuration.
pub fn powerset() -> (r: Result<(), TaskError>)
    ensures
        r matches Err(e) ==> e matches TaskError::Step { index, program } && index < 3
            && program@ == "cargo"@,
{
    PowersetBuilder::default().run()
}

/// Whether `fmt` is a rendered-report output format.
pub open spec fn report_format(fmt: Seq<char>) -> bool {
    fmt == "html"@ || fmt == "lcov"@ || fmt == "cobertura"@ || fmt == "covdir"@
}

/// Whether `fmt` is a supported coverage output format: the raw-profile
/// format or a rendered-report one.
pub open spec fn coverage_format_ok(fmt: Seq<char>) -> bool {
    fmt == "profraw"@ || report_format(fmt)
}

/// Whether `fmt` is a rendered-report output format.
pub fn is_report_format(fmt: &str) -> (r: bool)
    ensures
        r == report_format(fmt@),
{
    str_eq(fmt, "html") || str_eq(fmt, "lcov") || str_eq(fmt, "cobertura") || str_eq(
        fmt,
        "covdir",
    )
}

/// The view of a coverage run's plan: the clean target directory for
/// raw profiles, the instrumented-test invocation, the report
/// invocation (absent for the raw-profile format), and the glob of raw
/// profiles removed at the end.
#[verifier::ext_equal]
pub struct SpecCoveragePlan {
    pub coverage_dir: Seq<char>,
    pub test_step: SpecCommand,
    pub report_step: Option<SpecCommand>,
    pub cleanup_pattern: Seq<char>,
}

/// The plan of one coverage run.
pub struct CoveragePlan {
    pub coverage_dir: String,
    pub test_step: CommandSpec,
    pub report_step: Option<CommandSpec>,
    pub cleanup_pattern: String,
}

impl View for CoveragePlan {
    type V = SpecCoveragePlan;

    open spec fn view(&self) -> SpecCoveragePlan {
        SpecCoveragePlan {
            coverage_dir: self.coverage_dir@,
            test_step: self.test_step@,
            report_step: match self.report_step {
                Option::Some(s) => Option::Some(s@),
                Option::None => Option::None,
            },
            cleanup_pattern: self.cleanup_pattern@,
        }
    }
}

/// The instrumented-test invocation: the full test suite with all
/// optional features, build output redirected to the workspace's shared
/// target directory, source-level instrumentation enabled, and the raw
/// profiles written into the coverage directory under a per-process,
/// per-module naming pattern.
pub open spec fn coverage_test_step_spec(coverage_dir: Seq<char>, target_dir: Seq<char>)
    -> SpecCommand {
    SpecCommand {
        program: "cargo"@,
        args: seq!["test"@, "--all-features"@],
        env: seq![
            ("CARGO_TARGET_DIR"@, target_dir),
            ("RUSTFLAGS"@, "-Cinstrument-coverage"@),
            ("LLVM_PROFILE_FILE"@, joined_path(coverage_dir, "cargo-test-%p-%m.profraw"@)),
        ],
        dir: Option::None,
    }
}

/// The report invocation: the report tool over the raw profiles in the
/// coverage directory, with the workspace target directory as the
/// symbol source, the project's source directory for path mapping, the
/// requested output type, branch coverage on, and the fixed set of
/// path-ignore globs for non-project code.
pub open spec fn grcov_step_spec(
    coverage_dir: Seq<char>,
    target_dir: Seq<char>,
    source_dir: Seq<char>,
    fmt: Seq<char>,
) -> SpecCommand {
    plain_command(
        "grcov"@,
        seq![
            coverage_dir,
            "--binary-path"@,
            target_dir,
            "--source-dir"@,
            source_dir,
            "--output-types"@,
            fmt,
            "--branch"@,
            "--ignore-not-existing"@,
            "--ignore"@,
            "../*"@,
            "--ignore"@,
            "/*"@,
            "--ignore"@,
            "xtask/*"@,
            "-o"@,
            coverage_dir,
        ],
    )
}

/// The whole plan of a coverage run over a supported format: paths
/// derived from the two resolved roots, the instrumented-test step, the
/// report step unless the raw-profile format was asked for, and the
/// cleanup glob.
pub open spec fn coverage_plan_spec(
    fmt: Seq<char>,
    project_root: Seq<char>,
    workspace_root: Seq<char>,
) -> SpecCoveragePlan {
    let coverage_dir = joined_path(project_root, "coverage"@);
    let target_dir = joined_path(workspace_root, "target"@);
    let source_dir = joined_path(project_root, "src"@);
    SpecCoveragePlan {
        coverage_dir,
        test_step: coverage_test_step_spec(coverage_dir, target_dir),
        report_step: if fmt == "profraw"@ {
            Option::None
        } else {
            Option::Some(grcov_step_spec(coverage_dir, target_dir, source_dir, fmt))
        },
        cleanup_pattern: "**/*.profraw"@,
    }
}

/// Builds the plan of a coverage run: a supported format gives exactly
/// the plan `coverage_plan_spec` describes; any other format is
/// rejected with the unsupported-format error, before anything runs.
pub fn coverage_plan(fmt: &str, project_root: &str, workspace_root: &str) -> (r: Result<
    CoveragePlan,
    TaskError,
>)
    ensures
        coverage_format_ok(fmt@) ==> (r matches Ok(p) && p@ == coverage_plan_spec(
            fmt@,
            project_root@,
            workspace_root@,
        )),
        !coverage_format_ok(fmt@) ==> (r matches Err(e) && e matches TaskError::UnsupportedFormat {
            fmt: f,
        } && f@ == fmt@),
{
    let profraw = str_eq(fmt, "profraw");
    let report = is_report_format(fmt);
    if !profraw && !report {
        return Err(TaskError::UnsupportedFormat { fmt: String::from_str(fmt) });
    }
    let coverage_dir = join_path(project_root, "coverage");
    let target_dir = join_path(workspace_root, "target");
    let source_dir = join_path(project_root, "src");
    let profile_template = join_path(coverage_dir.as_str(), "cargo-test-%p-%m.profraw");

    let mut test_args_v: Vec<String> = Vec::new();
    test_args_v.push(String::from_str("test"));
    test_args_v.push(String::from_str("--all-features"));
    let ghost tv = test_args_v@;
    let test_step = CommandSpec::new("cargo", test_args_v).env(
        "CARGO_TARGET_DIR",
        target_dir.as_str(),
    ).env("RUSTFLAGS", "-Cinstrument-coverage").env("LLVM_PROFILE_FILE", profile_template.as_str());
    proof {
        assert(str_views(tv) =~= seq!["test"@, "--all-features"@]);
        assert(test_step@ =~= coverage_test_step_spec(coverage_dir@, target_dir@));
    }

    let report_step: Option<CommandSpec> = if profraw {
        Option::None
    } else {
        let mut g: Vec<String> = Vec::new();
        g.push(coverage_dir.clone());
        g.push(String::from_str("--binary-path"));
        g.push(target_dir.clone());
        g.push(String::from_str("--source-dir"));
        g.push(source_dir.clone());
        g.push(String::from_str("--output-types"));
        g.push(String::from_str(fmt));
        g.push(String::from_str("--branch"));
        g.push(String::from_str("--ignore-not-existing"));
        g.push(String::from_str("--ignore"));
        g.push(String::from_str("../*"));
        g.push(String::from_str("--ignore"));
        g.push(String::from_str("/*"));
        g.push(String::from_str("--ignore"));
        g.push(String::from_str("xtask/*"));
        g.push(String::from_str("-o"));
        g.push(coverage_dir.clone());
        let ghost gv = g@;
        let step = CommandSpec::new("grcov", g);
        proof {
            assert(str_views(gv) =~= grcov_step_spec(
                coverage_dir@,
                target_dir@,
                source_dir@,
                fmt@,
            ).args);
            assert(step@ =~= grcov_step_spec(coverage_dir@, target_dir@, source_dir@, fmt@));
        }
        Option::Some(step)
    };

    let plan = CoveragePlan {
        coverage_dir,
        test_step,
        report_step,
        cleanup_pattern: String::from_str("**/*.profraw"),
    };
    proof {
        assert(plan@ =~= coverage_plan_spec(fmt@, project_root@, workspace_root@));
    }
    Ok(plan)
}

/// With the raw-profile output format, the plan holds the
/// instrumented-test step and the final cleanup of raw profiles, and no
/// report step: the report tool is never part of the run.
pub proof fn lemma_coverage_profraw_skips_report(project_root: Seq<char>, workspace_root: Seq<char>)
    ensures
        coverage_plan_spec("profraw"@, project_root, workspace_root).report_step is None,
        coverage_plan_spec("profraw"@, project_root, workspace_root).test_step.program == "cargo"@,
        coverage_plan_spec("profraw"@, project_root, workspace_root).cleanup_pattern
            == "**/*.profraw"@,
{
}

/// A rendered-report format keeps the report step in the plan, and that
/// step runs the report tool.
pub proof fn lemma_coverage_report_step_present(
    fmt: Seq<char>,
    project_root: Seq<char>,
    workspace_root: Seq<char>,
)
    requires
        report_format(fmt),
    ensures
        coverage_plan_spec(fmt, project_root, workspace_root).report_step matches Some(s)
            && s.program == "grcov"@,
{
    reveal_strlit("profraw");
    reveal_strlit("html");
    reveal_strlit("lcov");
    reveal_strlit("cobertura");
    reveal_strlit("covdir");
    assert("profraw"@.len() == 7);
    assert("html"@.len() == 4);
    assert("lcov"@.len() == 4);
    assert("cobertura"@.len() == 9);
    assert("covdir"@.len() == 6);
    assert(fmt != "profraw"@);
}

/// Run coverage: resolve the project and workspace roots, reset the
/// coverage directory, run the instrumented test suite, render the
/// report unless the raw-profile format was asked for, and finish by
/// removing the raw profiles. An unsupported format fails validation
/// before any subprocess is invoked; any failing step aborts the run
/// with nothing rolled back.
pub fn coverage(fmt: &str) -> (r: Result<(), TaskError>)
    ensures
        !coverage_format_ok(fmt@) ==> (r matches Err(e) && e matches TaskError::UnsupportedFormat {
            fmt: f,
        } && f@ == fmt@),
        r matches Err(TaskError::UnsupportedFormat { fmt: f }) ==> !coverage_format_ok(fmt@) && f@
            == fmt@,
        r matches Err(TaskError::Step { index, program }) ==> index <= 1 && (program@ == "cargo"@
            || program@ == "grcov"@),
{
    let profraw = str_eq(fmt, "profraw");
    if !profraw && !is_report_format(fmt) {
        return Err(TaskError::UnsupportedFormat { fmt: String::from_str(fmt) });
    }
    let project_root = match nearest_cargo_dir() {
        Ok(d) => d,
        Err(e) => {
            return Err(TaskError::Ops { source: e });
        },
    };
    let workspace_root = match get_workspace_root() {
        Ok(d) => d,
        Err(e) => {
            return Err(TaskError::Ops { source: e });
        },
    };
    let plan = match coverage_plan(fmt, project_root.as_str(), workspace_root.as_str()) {
        Ok(p) => p,
        Err(e) => {
            return Err(e);
        },
    };
    if let Err(e) = get_clean_directory(plan.coverage_dir.as_str()) {
        return Err(TaskError::Ops { source: e });
    }
    if !run_step(&plan.test_step) {
        return Err(TaskError::Step { index: 0, program: plan.test_step.program.clone() });
    }
    print_line("ok.");
    match &plan.report_step {
        Option::Some(step) => {
            print_line("=== generating report ===");
            if let Err(e) = create_dir_if_missing(plan.coverage_dir.as_str()) {
                return Err(TaskError::Ops { source: e });
            }
            if !run_step(step) {
                return Err(TaskError::Step { index: 1, program: step.program.clone() });
            }
            print_line("ok.");
        },
        Option::None => {},
    }
    print_line("=== cleaning up ===");
    if let Err(e) = clean_files(plan.cleanup_pattern.as_str()) {
        return Err(TaskError::Ops { source: e });
    }
    print_line("ok.");
    Ok(())
}

/// Renders a decimal rate literal as a percentage with two digits after
/// the point (fractional digits beyond the fourth are truncated), or
/// nothing when the text is not such a literal: plain digits with at
/// most one point, no sign and no exponent (see `parse_rate_scaled`).
pub fn format_line_rate(raw: &str) -> (r: Option<String>)
    ensures
        (r is Some) == (rate_scaled_spec(raw@) is Some),
        (r matches Some(s) ==> rate_scaled_spec(raw@) matches Some(v) && s@
            == percent_string_spec(v)),
{
    match parse_rate_scaled(raw) {
        Option::Some(v) => Option::Some(percent_string(v)),
        Option::None => Option::None,
    }
}

/// The XML query for the overall line-rate attribute of a report file.
pub open spec fn xmllint_query_args(filename: Seq<char>) -> Seq<Seq<char>> {
    seq!["--xpath"@, "string(//coverage/@line-rate)"@, filename]
}

/// Builds the line-rate query invocation for a report file.
pub fn xmllint_query(filename: &str) -> (c: CommandSpec)
    ensures
        c@ == plain_command("xmllint"@, xmllint_query_args(filename@)),
{
    let mut args: Vec<String> = Vec::new();
    args.push(String::from_str("--xpath"));
    args.push(String::from_str("string(//coverage/@line-rate)"));
    args.push(String::from_str(filename));
    let ghost av = args@;
    let c = CommandSpec::new("xmllint", args);
    proof {
        assert(str_views(av) =~= xmllint_query_args(filename@));
    }
    c
}

/// Extracts the total line rate of a Cobertura report: queries the file
/// for the coverage element's line-rate attribute with the XML query
/// tool, renders the rate as a percentage with two decimal places, and
/// prints `Coverage: <percent>%`. A failing query is a step error; an
/// attribute that is not a decimal rate literal is `NotNumeric`.
pub fn cobertura_total_coverage(filename: &str) -> (r: Result<(), TaskError>)
    ensures
        r matches Err(e) ==> (e matches TaskError::Step { index, program } && index == 0
            && program@ == "xmllint"@) || e matches TaskError::NotNumeric,
{
    let query = xmllint_query(filename);
    let out = match read_step(&query) {
        Option::Some(o) => o,
        Option::None => {
            return Err(TaskError::Step { index: 0, program: query.program });
        },
    };
    let pct = match format_line_rate(out.as_str()) {
        Option::Some(p) => p,
        Option::None => {
            return Err(TaskError::NotNumeric);
        },
    };
    let mut line = String::from_str("Coverage: ");
    line.append(pct.as_str());
    line.append("%");
    print_line(line.as_str());
    Ok(())
}

/// Builds an invocation of `program` with two fixed arguments.
fn two_arg_command(program: &str, a0: &str, a1: &str) -> (c: CommandSpec)
    ensures
        c@ == plain_command(program@, seq![a0@, a1@]),
{
    let mut args: Vec<String> = Vec::new();
    args.push(String::from_str(a0));
    args.push(String::from_str(a1));
    let ghost av = args@;
    let c = CommandSpec::new(program, args);
    proof {
        assert(str_views(av) =~= seq![a0@, a1@]);
    }
    c
}

/// The documentation watch invocation.
pub open spec fn docs_args() -> Seq<Seq<char>> {
    seq!["watch"@, "-s"@, "cargo doc --no-deps"@]
}

/// Builds the documentation watch invocation.
pub fn docs_command() -> (c: CommandSpec)
    ensures
        c@ == plain_command("cargo"@, docs_args()),
{
    let mut args: Vec<String> = Vec::new();
    args.push(String::from_str("watch"));
    args.push(String::from_str("-s"));
    args.push(String::from_str("cargo doc --no-deps"));
    let ghost av = args@;
    let c = CommandSpec::new("cargo", args);
    proof {
        assert(str_views(av) =~= docs_args());
    }
    c
}

/// Run the documentation build in watch mode.
pub fn docs() -> (r: Result<(), TaskError>)
    ensures
        r matches Err(e) ==> e matches TaskError::Step { index, program } && index == 0
            && program@ == "cargo"@,
{
    let c = docs_command();
    if run_step(&c) {
        Ok(())
    } else {
        Err(TaskError::Step { index: 0, program: c.program })
    }
}

/// The check-then-test watch invocation.
pub open spec fn dev_args() -> Seq<Seq<char>> {
    seq!["watch"@, "-x"@, "check"@, "-x"@, "test"@]
}

/// Builds the check-then-test watch invocation.
pub fn dev_command() -> (c: CommandSpec)
    ensures
        c@ == plain_command("cargo"@, dev_args()),
{
    let mut args: Vec<String> = Vec::new();
    args.push(String::from_str("watch"));
    args.push(String::from_str("-x"));
    args.push(String::from_str("check"));
    args.push(String::from_str("-x"));
    args.push(String::from_str("test"));
    let ghost av = args@;
    let c = CommandSpec::new("cargo", args);
    proof {
        assert(str_views(av) =~= dev_args());
    }
    c
}

/// Watch changes and, after every change, run a check followed by the
/// tests; a failing check keeps the tests from running.
pub fn dev() -> (r: Result<(), TaskError>)
    ensures
        r matches Err(e) ==> e matches TaskError::Step { index, program } && index == 0
            && program@ == "cargo"@,
{
    let c = dev_command();
    if run_step(&c) {
        Ok(())
    } else {
        Err(TaskError::Step { index: 0, program: c.program })
    }
}

/// The biggest-crates query for a release build of one package.
pub open spec fn bloat_deps_args(package: Seq<char>) -> Seq<Seq<char>> {
    seq!["bloat"@, "--release"@, "--crates"@, "-p"@, package]
}

/// Builds the biggest-crates query invocation for `package`.
pub fn bloat_deps_command(package: &str) -> (c: CommandSpec)
    ensures
        c@ == plain_command("cargo"@, bloat_deps_args(package@)),
{
    let mut args: Vec<String> = Vec::new();
    args.push(String::from_str("bloat"));
    args.push(String::from_str("--release"));
    args.push(String::from_str("--crates"));
    args.push(String::from_str("-p"));
    args.push(String::from_str(package));
    let ghost av = args@;
    let c = CommandSpec::new("cargo", args);
    proof {
        assert(str_views(av) =~= bloat_deps_args(package@));
    }
    c
}

/// Show the biggest crates in a release build of `package`.
pub fn bloat_deps(package: &str) -> (r: Result<(), TaskError>)
    ensures
        r matches Err(e) ==> e matches TaskError::Step { index, program } && index == 0
            && program@ == "cargo"@,
{
    let c = bloat_deps_command(package);
    if run_step(&c) {
        Ok(())
    } else {
        Err(TaskError::Step { index: 0, program: c.program })
    }
}

/// The build-time query for one package, on a single job.
pub open spec fn bloat_time_args(package: Seq<char>) -> Seq<Seq<char>> {
    seq!["bloat"@, "--time"@, "-j"@, "1"@, "-p"@, package]
}

/// Builds the build-time query invocation for `package`.
pub fn bloat_time_command(package: &str) -> (c: CommandSpec)
    ensures
        c@ == plain_command("cargo"@, bloat_time_args(package@)),
{
    let mut args: Vec<String> = Vec::new();
    args.push(String::from_str("bloat"));
    args.push(String::from_str("--time"));
    args.push(String::from_str("-j"));
    args.push(String::from_str("1"));
    args.push(String::from_str("-p"));
    args.push(String::from_str(package));
    let ghost av = args@;
    let c = CommandSpec::new("cargo", args);
    proof {
        assert(str_views(av) =~= bloat_time_args(package@));
    }
    c
}

/// Show crate build times for `package`.
pub fn bloat_time(package: &str) -> (r: Result<(), TaskError>)
    ensures
        r matches Err(e) ==> e matches TaskError::Step { index, program } && index == 0
            && program@ == "cargo"@,
{
    let c = bloat_time_command(package);
    if run_step(&c) {
        Ok(())
    } else {
        Err(TaskError::Step { index: 0, program: c.program })
    }
}

/// The five tool installations, in their fixed order.
pub open spec fn install_plan_spec() -> Seq<SpecCommand> {
    seq![
        plain_command("cargo"@, seq!["install"@, "cargo-watch"@]),
        plain_command("cargo"@, seq!["install"@, "cargo-hack"@]),
        plain_command("cargo"@, seq!["install"@, "cargo-bloat"@]),
        plain_command("rustup"@, seq!["component"@, "add"@, "llvm-tools-preview"@]),
        plain_command("cargo"@, seq!["install"@, "grcov"@]),
    ]
}

/// Builds the five tool installations of `install_plan_spec`.
pub fn install_plan() -> (r: Vec<CommandSpec>)
    ensures
        command_views(r@) == install_plan_spec(),
{
    let mut plan: Vec<CommandSpec> = Vec::new();
    plan.push(two_arg_command("cargo", "install", "cargo-watch"));
    plan.push(two_arg_command("cargo", "install", "cargo-hack"));
    plan.push(two_arg_command("cargo", "install", "cargo-bloat"));
    let mut r_args: Vec<String> = Vec::new();
    r_args.push(String::from_str("component"));
    r_args.push(String::from_str("add"));
    r_args.push(String::from_str("llvm-tools-preview"));
    let ghost rv = r_args@;
    let rustup_step = CommandSpec::new("rustup", r_args);
    proof {
        assert(str_views(rv) =~= seq!["component"@, "add"@, "llvm-tools-preview"@]);
    }
    plan.push(rustup_step);
    plan.push(two_arg_command("cargo", "install", "grcov"));
    proof {
        assert(command_views(plan@) =~= install_plan_spec());
    }
    plan
}

/// Install the tools the other tasks rely on, fail-fast.
pub fn install() -> (r: Result<(), TaskError>)
    ensures
        r matches Err(e) ==> e matches TaskError::Step { index, program } && index < 5 && (
        program@ == "cargo"@ || program@ == "rustup"@),
{
    let plan = install_plan();
    match execute(&plan) {
        Ok(()) => Ok(()),
        Err(f) => {
            proof {
                assert(command_views(plan@).len() == plan@.len());
                assert(plan@.len() == 5);
                assert(command_views(plan@)[f.index as int] == plan@[f.index as int]@);
                assert(install_plan_spec()[f.index as int].program == "cargo"@
                    || install_plan_spec()[f.index as int].program == "rustup"@);
            }
            Err(TaskError::Step { index: f.index, program: f.program })
        },
    }
}

} // verus!
