use xtaskops::command::{execute, CommandSpec};
use xtaskops::ops::path_exists;

fn bare(program: &str) -> CommandSpec {
    CommandSpec::new(program, Vec::new())
}

#[test]
fn empty_pipeline_succeeds() {
    let specs: Vec<CommandSpec> = Vec::new();
    assert!(execute(&specs).is_ok());
}

#[test]
fn pipeline_of_successes_succeeds() {
    let specs = vec![bare("true"), bare("true"), bare("true")];
    assert!(execute(&specs).is_ok());
}

#[test]
fn pipeline_fail_fast_reports_second_step_and_skips_third() {
    let marker = "/tmp/xtaskops_pipeline_fail_fast_marker";
    let _ = fs_extra::file::remove(marker);
    let third = CommandSpec::new("touch", vec![marker.to_string()]);
    let specs = vec![bare("true"), bare("false"), third];
    let failure = execute(&specs).unwrap_err();
    assert_eq!(failure.index, 1);
    assert_eq!(failure.program, "false");
    assert!(!path_exists(marker));
}

#[test]
fn pipeline_failure_on_missing_program() {
    let specs = vec![bare("no_such_program_zzz_xtaskops")];
    let failure = execute(&specs).unwrap_err();
    assert_eq!(failure.index, 0);
    assert_eq!(failure.program, "no_such_program_zzz_xtaskops");
}

#[test]
fn command_spec_fields() {
    let c = CommandSpec::new("prog", vec!["a".to_string(), "b".to_string()]);
    assert_eq!(c.program, "prog");
    assert_eq!(c.args, vec!["a".to_string(), "b".to_string()]);
    assert!(c.env.is_empty());
    assert!(c.dir.is_none());
    let c = c.env("KEY", "VALUE");
    assert_eq!(c.env, vec![("KEY".to_string(), "VALUE".to_string())]);
}
