use xtaskops::tasks::{
    cobertura_total_coverage, coverage, coverage_plan, format_line_rate, is_report_format,
    TaskError,
};

#[test]
fn report_formats_recognised() {
    assert!(is_report_format("html"));
    assert!(is_report_format("lcov"));
    assert!(is_report_format("cobertura"));
    assert!(is_report_format("covdir"));
    assert!(!is_report_format("profraw"));
    assert!(!is_report_format("xml"));
    assert!(!is_report_format(""));
}

#[test]
fn coverage_rejects_unsupported_format_before_any_subprocess() {
    let marker = "/tmp/xtaskops_coverage_validation_marker";
    let _ = fs_extra::file::remove(marker);
    match coverage("xml") {
        Err(TaskError::UnsupportedFormat { fmt }) => assert_eq!(fmt, "xml"),
        _ => panic!("an unsupported format must fail validation"),
    }
    assert!(!xtaskops::ops::path_exists(marker));
}

#[test]
fn coverage_plan_profraw_has_no_report_step() {
    let plan = coverage_plan("profraw", "/proj", "/ws").unwrap();
    assert_eq!(plan.coverage_dir, "/proj/coverage");
    assert!(plan.report_step.is_none());
    assert_eq!(plan.cleanup_pattern, "**/*.profraw");
    let test_step = &plan.test_step;
    assert_eq!(test_step.program, "cargo");
    assert_eq!(test_step.args, vec!["test".to_string(), "--all-features".to_string()]);
    assert_eq!(
        test_step.env,
        vec![
            ("CARGO_TARGET_DIR".to_string(), "/ws/target".to_string()),
            ("RUSTFLAGS".to_string(), "-Cinstrument-coverage".to_string()),
            (
                "LLVM_PROFILE_FILE".to_string(),
                "/proj/coverage/cargo-test-%p-%m.profraw".to_string()
            ),
        ]
    );
}

#[test]
fn coverage_plan_html_has_exact_report_step() {
    let plan = coverage_plan("html", "/proj", "/ws").unwrap();
    let report = plan.report_step.expect("a rendered format keeps the report step");
    assert_eq!(report.program, "grcov");
    let args: Vec<&str> = report.args.iter().map(|s| s.as_str()).collect();
    assert_eq!(
        args,
        vec![
            "/proj/coverage",
            "--binary-path",
            "/ws/target",
            "--source-dir",
            "/proj/src",
            "--output-types",
            "html",
            "--branch",
            "--ignore-not-existing",
            "--ignore",
            "../*",
            "--ignore",
            "/*",
            "--ignore",
            "xtask/*",
            "-o",
            "/proj/coverage",
        ]
    );
}

#[test]
fn coverage_plan_rejects_unknown_format() {
    match coverage_plan("xml", "/proj", "/ws") {
        Err(TaskError::UnsupportedFormat { fmt }) => assert_eq!(fmt, "xml"),
        _ => panic!("an unsupported format must be rejected"),
    }
}

#[test]
fn line_rate_formatting() {
    assert_eq!(format_line_rate("0.8734").unwrap(), "87.34");
    assert_eq!(format_line_rate("1").unwrap(), "100.00");
    assert_eq!(format_line_rate("0.5").unwrap(), "50.00");
    assert_eq!(format_line_rate(".25").unwrap(), "25.00");
    assert_eq!(format_line_rate("0.").unwrap(), "0.00");
    assert_eq!(format_line_rate("0.87349999").unwrap(), "87.34");
    assert_eq!(format_line_rate("0.0001").unwrap(), "0.01");
}

#[test]
fn line_rate_rejects_non_numeric() {
    assert!(format_line_rate("").is_none());
    assert!(format_line_rate(".").is_none());
    assert!(format_line_rate("abc").is_none());
    assert!(format_line_rate("1.2.3").is_none());
    assert!(format_line_rate("-0.5").is_none());
    assert!(format_line_rate("0.5 ").is_none());
    assert!(format_line_rate("10000000000000").is_none());
}

#[test]
fn cobertura_total_coverage_reads_line_rate() {
    let dir = "/tmp/xtaskops_cobertura_scratch";
    xtaskops::ops::get_clean_directory(dir).unwrap();
    let file = "/tmp/xtaskops_cobertura_scratch/report.xml";
    fs_extra::file::write_all(
        file,
        "<?xml version=\"1.0\"?>\n<coverage line-rate=\"0.8734\" branch-rate=\"0.5\">\n</coverage>\n",
    )
    .unwrap();
    match cobertura_total_coverage(file) {
        Ok(()) => {}
        Err(TaskError::Step { index, program }) => {
            // The XML query tool is not installed everywhere; when it is
            // missing the task must surface exactly the failing step.
            assert_eq!(index, 0);
            assert_eq!(program, "xmllint");
        }
        _ => panic!("unexpected failure"),
    }
    let _ = xtaskops::ops::remove_dir(dir);
}

#[test]
fn cobertura_total_coverage_missing_file_fails() {
    let r = cobertura_total_coverage("/tmp/xtaskops_definitely_missing_report.xml");
    match r {
        Err(TaskError::Step { index, program }) => {
            assert_eq!(index, 0);
            assert_eq!(program, "xmllint");
        }
        Err(TaskError::NotNumeric) => {}
        _ => panic!("a missing report must not succeed"),
    }
}

#[test]
fn xmllint_query_is_exact() {
    let c = xtaskops::tasks::xmllint_query("cov.xml");
    assert_eq!(c.program, "xmllint");
    let args: Vec<&str> = c.args.iter().map(|s| s.as_str()).collect();
    assert_eq!(args, vec!["--xpath", "string(//coverage/@line-rate)", "cov.xml"]);
    assert!(c.env.is_empty());
}
