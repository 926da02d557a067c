use cangjie_card::analysis::{
    analyzer_command, combined_output, judge_exit, judge_exit_bytes, normalize_path,
    process_analysis_result, read_failure, report_path, start_failure,
};
use cangjie_card::models::{AnalysisResultItem, DefectLevel};

fn finding(file: &str) -> AnalysisResultItem {
    AnalysisResultItem {
        file: file.to_string(),
        line: 3,
        column: 5,
        end_line: 4,
        end_column: 9,
        analyzer_name: "cjlint".to_string(),
        description: "unused variable".to_string(),
        defect_level: DefectLevel::Suggestions,
        defect_type: "G.VAR.01".to_string(),
        language: "cangjie".to_string(),
    }
}

#[test]
fn workspace_prefix_is_stripped() {
    let out = process_analysis_result(vec![finding("/tmp/cjrepo_abc123/src/main.cj")], "/tmp/cjrepo_abc123");
    assert_eq!(out.len(), 1);
    assert_eq!(out[0].file, "src/main.cj");
}

#[test]
fn workspace_with_trailing_separator_is_stripped() {
    let out = process_analysis_result(vec![finding("/tmp/cjrepo_abc123/src/main.cj")], "/tmp/cjrepo_abc123/");
    assert_eq!(out[0].file, "src/main.cj");
}

#[test]
fn unprefixed_path_is_unchanged() {
    assert_eq!(normalize_path("src/main.cj", "/tmp/cjrepo_abc123"), "src/main.cj");
    assert_eq!(normalize_path("/other/src/main.cj", "/tmp/cjrepo_abc123"), "/other/src/main.cj");
}

#[test]
fn normalizing_twice_equals_once() {
    let once = normalize_path("/tmp/cjrepo_abc123/src/a/b.cj", "/tmp/cjrepo_abc123");
    let twice = normalize_path(&once, "/tmp/cjrepo_abc123");
    assert_eq!(once, "src/a/b.cj");
    assert_eq!(twice, once);
}

#[test]
fn bare_prefix_is_stripped() {
    assert_eq!(normalize_path("/tmp/cjrepo_abc123", "/tmp/cjrepo_abc123"), "");
    assert_eq!(normalize_path("/tmp/cjrepo_abc123x/y.cj", "/tmp/cjrepo_abc123"), "x/y.cj");
}

#[test]
fn empty_workspace_strips_one_separator() {
    assert_eq!(normalize_path("/src/main.cj", ""), "src/main.cj");
    assert_eq!(normalize_path("src/main.cj", ""), "src/main.cj");
}

#[test]
fn non_ascii_paths_are_stripped_by_characters() {
    assert_eq!(normalize_path("/tmp/仓库/源码/主.cj", "/tmp/仓库"), "源码/主.cj");
}

#[test]
fn normalization_keeps_order_and_other_fields() {
    let mut second = finding("elsewhere.cj");
    second.line = 42;
    second.defect_level = DefectLevel::Mandatory;
    let out = process_analysis_result(vec![finding("/w/a.cj"), second], "/w");
    assert_eq!(out.len(), 2);
    assert_eq!(out[0].file, "a.cj");
    assert_eq!(out[0].line, 3);
    assert_eq!(out[0].column, 5);
    assert_eq!(out[0].end_line, 4);
    assert_eq!(out[0].end_column, 9);
    assert_eq!(out[0].analyzer_name, "cjlint");
    assert_eq!(out[0].description, "unused variable");
    assert_eq!(out[0].defect_level, DefectLevel::Suggestions);
    assert_eq!(out[0].defect_type, "G.VAR.01");
    assert_eq!(out[0].language, "cangjie");
    assert_eq!(out[1].file, "elsewhere.cj");
    assert_eq!(out[1].line, 42);
    assert_eq!(out[1].defect_level, DefectLevel::Mandatory);
}

#[test]
fn empty_findings_stay_empty() {
    assert!(process_analysis_result(Vec::new(), "/w").is_empty());
}

#[test]
fn analyzer_command_line() {
    let c = analyzer_command("/tmp/cjrepo_x", "/tmp/r.json");
    assert_eq!(c.program, "/tmp/cj/tools/bin/cjlint");
    assert_eq!(c.args, vec!["-f", "/tmp/cjrepo_x", "-r", "json", "-o", "/tmp/r.json"]);
    assert_eq!(
        c.env,
        vec![
            ("LD_LIBRARY_PATH".to_string(), "/tmp/cj".to_string()),
            ("CANGJIE_HOME".to_string(), "/tmp/cj".to_string()),
        ]
    );
    assert_eq!(c.report, "/tmp/r.json");
}

#[test]
fn report_file_name() {
    assert_eq!(report_path("Ab3"), "/tmp/Ab3.json");
}

#[test]
fn combined_streams() {
    assert_eq!(combined_output("o", "e"), "STDOUT:\no\nSTDERR:\ne");
}

#[test]
fn exit_status_two_embeds_stderr() {
    let r = judge_exit(false, Some(2), "", "boom");
    assert_eq!(r, Err("cjlint command failed with exit code: 2\nSTDOUT:\n\nSTDERR:\nboom".to_string()));
}

#[test]
fn exit_by_signal_reports_minus_one() {
    let r = judge_exit(false, None, "out", "err");
    assert_eq!(r, Err("cjlint command failed with exit code: -1\nSTDOUT:\nout\nSTDERR:\nerr".to_string()));
}

#[test]
fn large_exit_codes_are_written_in_full() {
    let r = judge_exit(false, Some(-2147483648), "", "");
    assert_eq!(r, Err("cjlint command failed with exit code: -2147483648\nSTDOUT:\n\nSTDERR:\n".to_string()));
    let r = judge_exit(false, Some(130), "", "");
    assert_eq!(r, Err("cjlint command failed with exit code: 130\nSTDOUT:\n\nSTDERR:\n".to_string()));
}

#[test]
fn successful_exit_gives_combined_output() {
    assert_eq!(judge_exit(true, Some(0), "done", ""), Ok("STDOUT:\ndone\nSTDERR:\n".to_string()));
}

#[test]
fn output_bytes_are_decoded() {
    let r = judge_exit_bytes(false, Some(1), b"ok", &[b'b', 0xff, b'd']);
    assert_eq!(r, Err("cjlint command failed with exit code: 1\nSTDOUT:\nok\nSTDERR:\nb\u{fffd}d".to_string()));
}

#[test]
fn read_and_start_failures() {
    assert_eq!(read_failure("missing", "C"), "Failed to read cjlint output: missing\nC");
    assert_eq!(start_failure("no such file"), "Failed to execute cjlint: no such file");
}
