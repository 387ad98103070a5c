//! What a job asks its caller to do, what the caller reports back, and how a
//! job fails.
use vstd::prelude::*;
use vstd::string::*;

verus! {

/// Why an import or a catalogue write did not succeed.
#[derive(Debug)]
pub enum ImportError {
    /// The file to import does not exist.
    SourceMissing,
    /// A directory could not be created or a file could not be copied or
    /// written; the text names the path and the operating system's error.
    Io(String),
}

/// The mathematical value of an [`ImportError`].
pub enum Failure {
    SourceMissing,
    Io(Seq<char>),
}

impl View for ImportError {
    type V = Failure;

    open spec fn view(&self) -> Failure {
        match self {
            ImportError::SourceMissing => Failure::SourceMissing,
            ImportError::Io(m) => Failure::Io(m@),
        }
    }
}

/// The text shown for a missing source file.
pub open spec fn source_missing_text() -> Seq<char> {
    "Source file does not exist"@
}

impl Failure {
    /// The human-readable text of a failure.
    pub open spec fn message(self) -> Seq<char> {
        match self {
            Failure::SourceMissing => source_missing_text(),
            Failure::Io(m) => m,
        }
    }
}

/// The text of a failed directory creation.
pub open spec fn create_dir_failure(dir: Seq<char>, os_error: Seq<char>) -> Seq<char> {
    "Failed to create directory "@ + dir + ": "@ + os_error
}

/// The text of a failed copy.
pub open spec fn copy_failure(from: Seq<char>, to: Seq<char>, os_error: Seq<char>) -> Seq<char> {
    "Failed to copy "@ + from + " to "@ + to + ": "@ + os_error
}

/// The text of a failed catalogue write; the path stands in double quotes.
pub open spec fn write_failure(path: Seq<char>, os_error: Seq<char>) -> Seq<char> {
    "Failed to write games.json to \""@ + path + "\": "@ + os_error
}

impl ImportError {
    /// The human-readable text of this error.
    pub fn message(&self) -> (r: String)
        ensures
            r@ == self@.message(),
    {
        match self {
            ImportError::SourceMissing => "Source file does not exist".to_owned(),
            ImportError::Io(m) => m.clone(),
        }
    }

    /// A copy of this error.
    pub fn duplicate(&self) -> (r: ImportError)
        ensures
            r@ == self@,
    {
        match self {
            ImportError::SourceMissing => ImportError::SourceMissing,
            ImportError::Io(m) => ImportError::Io(m.clone()),
        }
    }

    /// Whether this is the missing-source error.
    pub fn is_source_missing(&self) -> (r: bool)
        ensures
            r == (self@ is SourceMissing),
    {
        match self {
            ImportError::SourceMissing => true,
            ImportError::Io(_) => false,
        }
    }
}

/// The mathematical value of a job's outcome.
pub open spec fn outcome_view(r: Result<String, ImportError>) -> Result<Seq<char>, Failure> {
    match r {
        Ok(p) => Ok(p@),
        Err(e) => Err(e@),
    }
}

/// A copy of a job's outcome.
pub fn duplicate_outcome(r: &Result<String, ImportError>) -> (c: Result<String, ImportError>)
    ensures
        outcome_view(c) == outcome_view(*r),
{
    match r {
        Ok(p) => Ok(p.clone()),
        Err(e) => Err(e.duplicate()),
    }
}

/// The text of a failed directory creation, built.
pub fn create_dir_failure_text(dir: &str, os_error: &str) -> (r: String)
    ensures
        r@ == create_dir_failure(dir@, os_error@),
{
    let mut s = "Failed to create directory ".to_owned();
    s.append(dir);
    s.append(": ");
    s.append(os_error);
    s
}

/// The text of a failed copy, built.
pub fn copy_failure_text(from: &str, to: &str, os_error: &str) -> (r: String)
    ensures
        r@ == copy_failure(from@, to@, os_error@),
{
    let mut s = "Failed to copy ".to_owned();
    s.append(from);
    s.append(" to ");
    s.append(to);
    s.append(": ");
    s.append(os_error);
    s
}

/// The text of a failed catalogue write, built.
pub fn write_failure_text(path: &str, os_error: &str) -> (r: String)
    ensures
        r@ == write_failure(path@, os_error@),
{
    let mut s = "Failed to write games.json to \"".to_owned();
    s.append(path);
    s.append("\": ");
    s.append(os_error);
    s
}

/// What a job asks its caller to do next.
#[derive(Debug)]
pub enum Action {
    /// Report whether this path exists.
    CheckExists(String),
    /// Create this directory and any missing parent.
    CreateDirAll(String),
    /// Copy the first file to the second path, replacing what is there.
    CopyFile(String, String),
    /// Write the second value, the catalogue's content, to the path that is
    /// the first, replacing what is there.
    WriteFile(String, String),
    /// The job is over, with this outcome.
    Finish(Result<String, ImportError>),
}

/// The mathematical value of an [`Action`].
pub enum Request {
    Exists(Seq<char>),
    CreateDirAll(Seq<char>),
    Copy(Seq<char>, Seq<char>),
    Write(Seq<char>, Seq<char>),
    Finish(Result<Seq<char>, Failure>),
}

impl View for Action {
    type V = Request;

    open spec fn view(&self) -> Request {
        match self {
            Action::CheckExists(p) => Request::Exists(p@),
            Action::CreateDirAll(p) => Request::CreateDirAll(p@),
            Action::CopyFile(from, to) => Request::Copy(from@, to@),
            Action::WriteFile(p, content) => Request::Write(p@, content@),
            Action::Finish(r) => Request::Finish(outcome_view(*r)),
        }
    }
}

/// What the caller reports after carrying out an [`Action`].
#[derive(Debug)]
pub enum Event {
    /// The answer to [`Action::CheckExists`].
    Exists(bool),
    /// The directory was created, or the file copied or written.
    Done,
    /// The operation failed with this operating-system error text.
    Failed(String),
}

/// The mathematical value of an [`Event`].
pub enum Reply {
    Exists(bool),
    Done,
    Failed(Seq<char>),
}

impl View for Event {
    type V = Reply;

    open spec fn view(&self) -> Reply {
        match self {
            Event::Exists(b) => Reply::Exists(*b),
            Event::Done => Reply::Done,
            Event::Failed(e) => Reply::Failed(e@),
        }
    }
}

} // verus!
