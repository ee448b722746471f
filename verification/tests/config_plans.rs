use xtaskops::command::CommandSpec;
use xtaskops::tasks::{ci_plan, powerset_plan, CIBuilder, PowersetBuilder, CI, Powerset};

fn arg_strs(c: &CommandSpec) -> Vec<&str> {
    c.args.iter().map(|s| s.as_str()).collect()
}

#[test]
fn ci_defaults_are_stable_toolchain_and_max_lints() {
    let t = CIBuilder::default().build();
    assert_eq!(t, CI { nightly: false, clippy_max: true });
}

#[test]
fn ci_default_plan_has_no_nightly_prefix_and_extended_lints() {
    let t = CIBuilder::default().build();
    let plan = ci_plan(&t);
    assert_eq!(plan.len(), 4);
    assert_eq!(plan[0].program, "cargo");
    assert_eq!(arg_strs(&plan[0]), vec!["fmt", "--all", "--", "--check"]);
    assert_eq!(
        arg_strs(&plan[1]),
        vec![
            "clippy",
            "--",
            "-D",
            "warnings",
            "-W",
            "clippy::pedantic",
            "-W",
            "clippy::nursery",
            "-W",
            "rust-2018-idioms",
        ]
    );
    assert_eq!(arg_strs(&plan[2]), vec!["test"]);
    assert_eq!(arg_strs(&plan[3]), vec!["test", "--doc"]);
}

#[test]
fn ci_nightly_prefix_comes_first() {
    let t = CIBuilder::default().nightly(true).build();
    let plan = ci_plan(&t);
    assert_eq!(arg_strs(&plan[0]), vec!["+nightly", "fmt", "--all", "--", "--check"]);
}

#[test]
fn ci_without_max_lints_keeps_base_clippy_args() {
    let t = CIBuilder::default().clippy_max(false).build();
    let plan = ci_plan(&t);
    assert_eq!(arg_strs(&plan[1]), vec!["clippy", "--", "-D", "warnings"]);
}

#[test]
fn powerset_defaults() {
    let t = PowersetBuilder::default().build();
    assert_eq!(t, Powerset { depth: 2, exclude_no_default_features: false });
}

#[test]
fn powerset_depth_three_token_in_every_invocation() {
    let t = PowersetBuilder::default().depth(3).build();
    let plan = powerset_plan(&t);
    assert_eq!(plan.len(), 3);
    for step in &plan {
        assert_eq!(step.program, "cargo");
        assert!(step.args.iter().any(|a| a == "3"));
    }
}

#[test]
fn powerset_default_plan_is_exact() {
    let t = PowersetBuilder::default().build();
    let plan = powerset_plan(&t);
    let common = vec![
        "--workspace",
        "--exclude",
        "xtask",
        "--feature-powerset",
        "--depth",
        "2",
    ];
    let mut first = vec!["hack", "clippy"];
    first.extend(common.iter());
    first.extend(["--", "-D", "warnings"]);
    assert_eq!(arg_strs(&plan[0]), first);
    let mut second = vec!["hack"];
    second.extend(common.iter());
    second.push("test");
    assert_eq!(arg_strs(&plan[1]), second);
    let mut third = vec!["hack", "test"];
    third.extend(common.iter());
    third.push("--doc");
    assert_eq!(arg_strs(&plan[2]), third);
}

#[test]
fn powerset_exclusion_flag_appended() {
    let t = PowersetBuilder::default().exclude_no_default_features(true).build();
    let plan = powerset_plan(&t);
    for step in &plan {
        assert!(step.args.iter().any(|a| a == "--exclude-no-default-features"));
    }
    let t = PowersetBuilder::default().build();
    let plan = powerset_plan(&t);
    for step in &plan {
        assert!(!step.args.iter().any(|a| a == "--exclude-no-default-features"));
    }
}

#[test]
fn powerset_negative_depth_renders_with_sign() {
    let t = PowersetBuilder::default().depth(-7).build();
    let plan = powerset_plan(&t);
    assert!(plan[0].args.iter().any(|a| a == "-7"));
}

#[test]
fn install_plan_is_exact() {
    let plan = xtaskops::tasks::install_plan();
    assert_eq!(plan.len(), 5);
    let rendered: Vec<(String, Vec<String>)> =
        plan.into_iter().map(|c| (c.program, c.args)).collect();
    assert_eq!(
        rendered,
        vec![
            ("cargo".to_string(), vec!["install".to_string(), "cargo-watch".to_string()]),
            ("cargo".to_string(), vec!["install".to_string(), "cargo-hack".to_string()]),
            ("cargo".to_string(), vec!["install".to_string(), "cargo-bloat".to_string()]),
            (
                "rustup".to_string(),
                vec!["component".to_string(), "add".to_string(), "llvm-tools-preview".to_string()]
            ),
            ("cargo".to_string(), vec!["install".to_string(), "grcov".to_string()]),
        ]
    );
}

#[test]
fn single_shot_commands_are_exact() {
    let c = xtaskops::tasks::docs_command();
    assert_eq!(c.program, "cargo");
    assert_eq!(arg_strs(&c), vec!["watch", "-s", "cargo doc --no-deps"]);
    let c = xtaskops::tasks::dev_command();
    assert_eq!(c.program, "cargo");
    assert_eq!(arg_strs(&c), vec!["watch", "-x", "check", "-x", "test"]);
    let c = xtaskops::tasks::bloat_deps_command("mypkg");
    assert_eq!(c.program, "cargo");
    assert_eq!(arg_strs(&c), vec!["bloat", "--release", "--crates", "-p", "mypkg"]);
    let c = xtaskops::tasks::bloat_time_command("mypkg");
    assert_eq!(c.program, "cargo");
    assert_eq!(arg_strs(&c), vec!["bloat", "--time", "-j", "1", "-p", "mypkg"]);
}
