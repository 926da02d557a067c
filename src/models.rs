//! The result types: findings, the stored analysis result, and the answer envelope.

use vstd::prelude::*;

verus! {

/// How serious a finding is.
#[derive(Clone, Copy, Debug, PartialEq, Eq, Structural)]
pub enum DefectLevel {
    Mandatory,
    Suggestions,
}

/// One defect reported by the analyzer.
#[derive(Clone, Debug)]
pub struct AnalysisResultItem {
    pub file: String,
    pub line: i32,
    pub column: i32,
    pub end_line: i32,
    pub end_column: i32,
    pub analyzer_name: String,
    pub description: String,
    pub defect_level: DefectLevel,
    pub defect_type: String,
    pub language: String,
}

/// The persisted result of one analysis run.
#[derive(Clone, Debug)]
pub struct AnalysisResult {
    pub cjlint: Vec<AnalysisResultItem>,
    pub created_at: i64,
    pub commit: String,
    pub package_name: String,
}

/// The envelope every response is wrapped in.
#[derive(Clone, Debug)]
pub struct ApiResponse<T> {
    pub success: bool,
    pub message: Option<String>,
    pub data: Option<T>,
    pub error: Option<String>,
}

/// A fetched repository: where it lies and the revision that was checked out.
#[derive(Clone, Debug)]
pub struct CloneResult {
    pub repo_path: String,
    pub commit_hash: String,
}

impl<T> ApiResponse<T> {
    /// A failed answer carrying `error`, with neither message nor data.
    pub fn failure(error: String) -> (r: ApiResponse<T>)
        ensures
            !r.success,
            r.message is None,
            r.data is None,
            r.error == Some(error),
    {
        ApiResponse { success: false, message: None, data: None, error: Some(error) }
    }

    /// A successful answer carrying `message` and `data`, with no error.
    pub fn succeeded(message: String, data: T) -> (r: ApiResponse<T>)
        ensures
            r.success,
            r.message == Some(message),
            r.data == Some(data),
            r.error is None,
    {
        ApiResponse { success: true, message: Some(message), data: Some(data), error: None }
    }
}

/// Whether `b` is `a` with at most its file path changed.
pub open spec fn same_but_file(a: AnalysisResultItem, b: AnalysisResultItem) -> bool {
    &&& b.line == a.line
    &&& b.column == a.column
    &&& b.end_line == a.end_line
    &&& b.end_column == a.end_column
    &&& b.analyzer_name == a.analyzer_name
    &&& b.description == a.description
    &&& b.defect_level == a.defect_level
    &&& b.defect_type == a.defect_type
    &&& b.language == a.language
}

impl AnalysisResultItem {
    /// This finding with its file path replaced by `file`.
    pub fn with_file(&self, file: String) -> (r: AnalysisResultItem)
        ensures
            r.file == file,
            same_but_file(*self, r),
    {
        AnalysisResultItem {
            file,
            line: self.line,
            column: self.column,
            end_line: self.end_line,
            end_column: self.end_column,
            analyzer_name: self.analyzer_name.clone(),
            description: self.description.clone(),
            defect_level: self.defect_level,
            defect_type: self.defect_type.clone(),
            language: self.language.clone(),
        }
    }
}

} // verus!
