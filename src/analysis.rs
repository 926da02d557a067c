//! Running the analyzer and reading its findings: its command line, the judgement of
//! its exit, and the normalization of reported paths.

use vstd::prelude::*;
use vstd::string::*;

use crate::models::{same_but_file, AnalysisResultItem};
use crate::text::{decimal, ends_with_char, has_prefix, suffix_from, to_decimal};
use crate::utils::{generate_random_string, is_alphanumeric, ANALYZER_PATH, RUNTIME_ROOT};

verus! {

/// How one analyzer run is started: the program, its arguments, the environment
/// it needs to find its own libraries, and the report file it writes.
#[derive(Clone, Debug)]
pub struct AnalyzerCommand {
    pub program: String,
    pub args: Vec<String>,
    pub env: Vec<(String, String)>,
    pub report: String,
}

/// The report file for the run named by `suffix`.
pub open spec fn report_path_text(suffix: Seq<char>) -> Seq<char> {
    "/tmp/"@ + suffix + ".json"@
}

/// The report file for the run named by `suffix`.
pub fn report_path(suffix: &str) -> (r: String)
    ensures
        r@ == report_path_text(suffix@),
{
    String::from_str("/tmp/").concat(suffix).concat(".json")
}

/// A fresh report file under a random ten-character name.
pub fn new_report_path() -> (r: String)
    ensures
        exists|s: Seq<char>|
            s.len() == 10 && (forall|i: int| 0 <= i < 10 ==> is_alphanumeric(#[trigger] s[i]))
                && r@ == report_path_text(s),
{
    let suffix = generate_random_string(10);
    let r = report_path(suffix.as_str());
    assert(r@ == report_path_text(suffix@));
    r
}

/// Whether `c` starts the analyzer on `repo_path` with JSON output to `report`,
/// with the runtime root as library path and home.
pub open spec fn is_analyzer_command(c: AnalyzerCommand, repo_path: Seq<char>, report: Seq<char>) -> bool {
    &&& c.program@ == ANALYZER_PATH@
    &&& c.args@.len() == 6
    &&& c.args@[0]@ == "-f"@
    &&& c.args@[1]@ == repo_path
    &&& c.args@[2]@ == "-r"@
    &&& c.args@[3]@ == "json"@
    &&& c.args@[4]@ == "-o"@
    &&& c.args@[5]@ == report
    &&& c.env@.len() == 2
    &&& c.env@[0].0@ == "LD_LIBRARY_PATH"@
    &&& c.env@[0].1@ == RUNTIME_ROOT@
    &&& c.env@[1].0@ == "CANGJIE_HOME"@
    &&& c.env@[1].1@ == RUNTIME_ROOT@
    &&& c.report@ == report
}

/// The command that analyzes `repo_path` and writes the report to `report`.
pub fn analyzer_command(repo_path: &str, report: &str) -> (r: AnalyzerCommand)
    ensures
        is_analyzer_command(r, repo_path@, report@),
{
    let mut args: Vec<String> = Vec::new();
    args.push(String::from_str("-f"));
    args.push(String::from_str(repo_path));
    args.push(String::from_str("-r"));
    args.push(String::from_str("json"));
    args.push(String::from_str("-o"));
    args.push(String::from_str(report));
    let mut env: Vec<(String, String)> = Vec::new();
    env.push((String::from_str("LD_LIBRARY_PATH"), String::from_str(RUNTIME_ROOT)));
    env.push((String::from_str("CANGJIE_HOME"), String::from_str(RUNTIME_ROOT)));
    AnalyzerCommand { program: String::from_str(ANALYZER_PATH), args, env, report: String::from_str(report) }
}

/// Text decoded from bytes, with each invalid sequence replaced by U+FFFD.
pub uninterp spec fn lossy_text(b: Seq<u8>) -> Seq<char>;

/// Relies on `String::from_utf8_lossy`: the bytes as UTF-8 text, each invalid
/// sequence replaced by U+FFFD; the result depends on the bytes alone.
#[verifier::external_body]
fn decode_lossy(b: &[u8]) -> (r: String)
    ensures
        r@ == lossy_text(b@),
{
    String::from_utf8_lossy(b).into_owned()
}

/// Both output streams of an analyzer run, labelled, for diagnostics.
pub open spec fn combined_text(stdout: Seq<char>, stderr: Seq<char>) -> Seq<char> {
    "STDOUT:\n"@ + stdout + "\nSTDERR:\n"@ + stderr
}

/// Both output streams of an analyzer run, labelled, for diagnostics.
pub fn combined_output(stdout: &str, stderr: &str) -> (r: String)
    ensures
        r@ == combined_text(stdout@, stderr@),
{
    String::from_str("STDOUT:\n").concat(stdout).concat("\nSTDERR:\n").concat(stderr)
}

/// The exit code to report: the process's own, or -1 when it was ended by a signal.
pub open spec fn reported_code(code: Option<i32>) -> int {
    match code {
        Some(c) => c as int,
        None => -1,
    }
}

/// The error of a run that exited unsuccessfully.
pub open spec fn exit_failure_text(code: Option<i32>, combined: Seq<char>) -> Seq<char> {
    "cjlint command failed with exit code: "@ + decimal(reported_code(code)) + "\n"@ + combined
}

/// Judges how an analyzer run ended, from its exit status and its decoded output:
/// `Ok` with the combined output when it succeeded, else the error that names the
/// exit code and carries both streams.
pub fn judge_exit(success: bool, code: Option<i32>, stdout: &str, stderr: &str) -> (r: Result<
    String,
    String,
>)
    ensures
        match r {
            Ok(c) => success && c@ == combined_text(stdout@, stderr@),
            Err(m) => !success && m@ == exit_failure_text(code, combined_text(stdout@, stderr@)),
        },
{
    let combined = combined_output(stdout, stderr);
    if success {
        Ok(combined)
    } else {
        let c: i32 = match code {
            Some(c) => c,
            None => -1,
        };
        let m = String::from_str("cjlint command failed with exit code: ").concat(
            to_decimal(c as i64).as_str(),
        ).concat("\n").concat(combined.as_str());
        Err(m)
    }
}

/// `judge_exit` on the raw bytes of the two output streams.
pub fn judge_exit_bytes(success: bool, code: Option<i32>, stdout: &[u8], stderr: &[u8]) -> (r: Result<
    String,
    String,
>)
    ensures
        match r {
            Ok(c) => success && c@ == combined_text(lossy_text(stdout@), lossy_text(stderr@)),
            Err(m) => !success && m@ == exit_failure_text(
                code,
                combined_text(lossy_text(stdout@), lossy_text(stderr@)),
            ),
        },
{
    let out = decode_lossy(stdout);
    let err = decode_lossy(stderr);
    judge_exit(success, code, out.as_str(), err.as_str())
}

/// The error of a run whose report could not be read.
pub open spec fn read_failure_text(error: Seq<char>, combined: Seq<char>) -> Seq<char> {
    "Failed to read cjlint output: "@ + error + "\n"@ + combined
}

/// The error of a run whose report could not be read.
pub fn read_failure(error: &str, combined: &str) -> (r: String)
    ensures
        r@ == read_failure_text(error@, combined@),
{
    String::from_str("Failed to read cjlint output: ").concat(error).concat("\n").concat(combined)
}

/// The error of a run that could not be started.
pub fn start_failure(error: &str) -> (r: String)
    ensures
        r@ == "Failed to execute cjlint: "@ + error@,
{
    String::from_str("Failed to execute cjlint: ").concat(error)
}

/// The workspace path with exactly one trailing separator.
pub open spec fn slashed(p: Seq<char>) -> Seq<char> {
    if p.len() > 0 && p.last() == '/' {
        p
    } else {
        p.push('/')
    }
}

/// A reported path made relative to the workspace `p`: the prefix `p/` is
/// removed, or else a bare prefix `p`; a path with neither is kept as it is.
pub open spec fn normalized_path(file: Seq<char>, p: Seq<char>) -> Seq<char> {
    if slashed(p).is_prefix_of(file) {
        file.skip(slashed(p).len() as int)
    } else if p.is_prefix_of(file) {
        file.skip(p.len() as int)
    } else {
        file
    }
}

/// Makes one reported path relative to the workspace `repo_path`.
pub fn normalize_path(file: &str, repo_path: &str) -> (r: String)
    ensures
        r@ == normalized_path(file@, repo_path@),
{
    let with_slash = if ends_with_char(repo_path, '/') {
        String::from_str(repo_path)
    } else {
        String::from_str(repo_path).concat("/")
    };
    proof {
        reveal_strlit("/");
        assert(with_slash@ =~= slashed(repo_path@));
    }
    if has_prefix(file, with_slash.as_str()) {
        suffix_from(file, with_slash.unicode_len())
    } else if has_prefix(file, repo_path) {
        suffix_from(file, repo_path.unicode_len())
    } else {
        String::from_str(file)
    }
}

/// Rewrites the file path of every finding to be relative to the workspace
/// `repo_path`, keeping the findings, their order and every other field.
pub fn process_analysis_result(analysis_result: Vec<AnalysisResultItem>, repo_path: &str) -> (r: Vec<
    AnalysisResultItem,
>)
    ensures
        r@.len() == analysis_result@.len(),
        forall|i: int|
            0 <= i < r@.len() ==> {
                &&& (#[trigger] r@[i]).file@ == normalized_path(
                    analysis_result@[i].file@,
                    repo_path@,
                )
                &&& same_but_file(analysis_result@[i], r@[i])
            },
{
    let mut out: Vec<AnalysisResultItem> = Vec::new();
    let mut i: usize = 0;
    while i < analysis_result.len()
        invariant
            i <= analysis_result@.len(),
            out@.len() == i,
            forall|j: int|
                0 <= j < i ==> {
                    &&& (#[trigger] out@[j]).file@ == normalized_path(
                        analysis_result@[j].file@,
                        repo_path@,
                    )
                    &&& same_but_file(analysis_result@[j], out@[j])
                },
        decreases analysis_result@.len() - i,
    {
        let item = &analysis_result[i];
        let file = normalize_path(item.file.as_str(), repo_path);
        out.push(item.with_file(file));
        i += 1;
    }
    out
}

/// A path that does not start with the workspace path is left unchanged.
pub proof fn lemma_unprefixed_path_unchanged(file: Seq<char>, p: Seq<char>)
    requires
        !p.is_prefix_of(file),
    ensures
        normalized_path(file, p) == file,
{
    if slashed(p).is_prefix_of(file) {
        assert(p =~= slashed(p).subrange(0, p.len() as int));
        assert(p =~= file.subrange(0, p.len() as int));
    }
}

/// Normalizing an already normalized path changes nothing, unless what the first
/// pass left still starts with the workspace path (for an empty workspace path:
/// with a separator).
pub proof fn lemma_normalize_idempotent(file: Seq<char>, p: Seq<char>)
    requires
        !p.is_prefix_of(normalized_path(file, p)) || (p.len() == 0 && !(normalized_path(
            file,
            p,
        ).len() > 0 && normalized_path(file, p)[0] == '/')),
    ensures
        normalized_path(normalized_path(file, p), p) == normalized_path(file, p),
{
    let n = normalized_path(file, p);
    if !p.is_prefix_of(n) {
        lemma_unprefixed_path_unchanged(n, p);
    } else {
        assert(slashed(p) =~= seq!['/']);
        if slashed(p).is_prefix_of(n) {
            assert(n.subrange(0, 1)[0] == n[0]);
        }
        assert(n.skip(0) =~= n);
    }
}

/// A path `p/rest` normalizes to `rest`, whether the workspace is written `p` or `p/`.
pub proof fn lemma_normalize_strips_workspace(p: Seq<char>, rest: Seq<char>)
    requires
        !(p.len() > 0 && p.last() == '/'),
    ensures
        normalized_path(p + seq!['/'] + rest, p) == rest,
        normalized_path(p + seq!['/'] + rest, p.push('/')) == rest,
{
    let file = p + seq!['/'] + rest;
    assert(slashed(p) =~= p.push('/'));
    assert(slashed(p.push('/')) =~= p.push('/'));
    assert(p.push('/') =~= file.subrange(0, p.len() + 1 as int));
    assert(file.skip(p.len() + 1 as int) =~= rest);
}

} // verus!
