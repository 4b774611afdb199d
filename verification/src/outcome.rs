use vstd::prelude::*;
use crate::command::{EvaluationError, EvaluationErrorView};

verus! {

/// Why a rename did not take place.
#[derive(Debug)]
pub enum RenameError {
    /// Nothing exists at the given path.
    SourceNotFound,
    /// The path has no parent directory.
    InvalidPath,
    /// The base name of the path cannot be read as text.
    InvalidName,
    /// The rule produced no name.
    Evaluation { error: EvaluationError },
    /// The rule produced the empty name.
    EmptyResult,
    /// The parent directory already holds an entry called `name`.
    TargetExists { name: String },
    /// The file system refused the rename; `reason` is what it reported.
    OperationFailed { reason: String },
}

/// A `RenameError` with its texts as sequences of characters.
pub enum RenameErrorView {
    SourceNotFound,
    InvalidPath,
    InvalidName,
    Evaluation { error: EvaluationErrorView },
    EmptyResult,
    TargetExists { name: Seq<char> },
    OperationFailed { reason: Seq<char> },
}

impl RenameErrorView {
    /// The status line that reports the error.
    pub open spec fn message(self) -> Seq<char> {
        match self {
            RenameErrorView::SourceNotFound => "File not found"@,
            RenameErrorView::InvalidPath => "Invalid path"@,
            RenameErrorView::InvalidName => "Invalid filename"@,
            RenameErrorView::Evaluation { error } => error.message(),
            RenameErrorView::EmptyResult => "Resulting name is empty"@,
            RenameErrorView::TargetExists { name } => "Target exists: "@ + name,
            RenameErrorView::OperationFailed { reason } => reason,
        }
    }
}

impl View for RenameError {
    type V = RenameErrorView;

    open spec fn view(&self) -> RenameErrorView {
        match *self {
            RenameError::SourceNotFound => RenameErrorView::SourceNotFound,
            RenameError::InvalidPath => RenameErrorView::InvalidPath,
            RenameError::InvalidName => RenameErrorView::InvalidName,
            RenameError::Evaluation { error } => RenameErrorView::Evaluation { error: error@ },
            RenameError::EmptyResult => RenameErrorView::EmptyResult,
            RenameError::TargetExists { name } => RenameErrorView::TargetExists { name: name@ },
            RenameError::OperationFailed { reason } => RenameErrorView::OperationFailed {
                reason: reason@,
            },
        }
    }
}

impl RenameError {
    /// The status line that reports the error.
    pub fn message(&self) -> (text: String)
        ensures
            text@ == self@.message(),
    {
        match self {
            RenameError::SourceNotFound => "File not found".to_owned(),
            RenameError::InvalidPath => "Invalid path".to_owned(),
            RenameError::InvalidName => "Invalid filename".to_owned(),
            RenameError::Evaluation { error } => error.message(),
            RenameError::EmptyResult => "Resulting name is empty".to_owned(),
            RenameError::TargetExists { name } => {
                let mut text = "Target exists: ".to_owned();
                text.append(name.as_str());
                text
            },
            RenameError::OperationFailed { reason } => reason.clone(),
        }
    }
}

/// What one rename came to: the path it was asked for, a status line, and the
/// new base name if, and only if, the rename succeeded.
#[derive(Debug)]
pub struct RenameResult {
    path: String,
    status: String,
    new_name: Option<String>,
}

/// A `RenameResult` with its texts as sequences of characters.
pub struct RenameResultView {
    pub path: Seq<char>,
    pub status: Seq<char>,
    pub new_name: Option<Seq<char>>,
}

impl RenameResultView {
    /// The result of a rename of `path` that gave the entry the name `name`.
    pub open spec fn success(path: Seq<char>, name: Seq<char>) -> RenameResultView {
        RenameResultView { path, status: "Success"@, new_name: Some(name) }
    }

    /// The result of a rename of `path` that failed with `error`.
    pub open spec fn failure(path: Seq<char>, error: RenameErrorView) -> RenameResultView {
        RenameResultView { path, status: error.message(), new_name: None }
    }
}

impl View for RenameResult {
    type V = RenameResultView;

    closed spec fn view(&self) -> RenameResultView {
        RenameResultView {
            path: self.path@,
            status: self.status@,
            new_name: match self.new_name {
                Some(name) => Some(name@),
                None => None,
            },
        }
    }
}

impl RenameResult {
    /// The result of a rename of `path` that gave the entry the name `name`.
    pub fn success(path: String, name: String) -> (result: RenameResult)
        ensures
            result@ == RenameResultView::success(path@, name@),
    {
        RenameResult { path, status: "Success".to_owned(), new_name: Some(name) }
    }

    /// The result of a rename of `path` that failed with `error`.
    pub fn failure(path: String, error: &RenameError) -> (result: RenameResult)
        ensures
            result@ == RenameResultView::failure(path@, error@),
    {
        RenameResult { path, status: error.message(), new_name: None }
    }

    /// The path that the rename was asked for.
    pub fn path(&self) -> (path: &str)
        ensures
            path@ == self@.path,
    {
        self.path.as_str()
    }

    /// The status line: `Success`, or what went wrong.
    pub fn status(&self) -> (status: &str)
        ensures
            status@ == self@.status,
    {
        self.status.as_str()
    }

    /// The new base name, present exactly when the rename succeeded.
    pub fn new_name(&self) -> (name: Option<&str>)
        ensures
            match name {
                Some(text) => self@.new_name == Some(text@),
                None => self@.new_name is None,
            },
    {
        match &self.new_name {
            Some(name) => Some(name.as_str()),
            None => None,
        }
    }

    /// A copy of this result.
    pub fn duplicate(&self) -> (copy: RenameResult)
        ensures
            copy@ == self@,
    {
        RenameResult {
            path: self.path.clone(),
            status: self.status.clone(),
            new_name: match &self.new_name {
                Some(name) => Some(name.clone()),
                None => None,
            },
        }
    }
}

} // verus!
