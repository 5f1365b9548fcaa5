//! What can go wrong, as values a caller can tell apart.

use vstd::prelude::*;

verus! {

/// The broad class an error belongs to.
#[derive(Clone, Copy, Debug, PartialEq, Eq, Structural)]
pub enum ErrorKind {
    /// The document text is malformed.
    Parse,
    /// Something that was named does not exist.
    NotFound,
    /// The destination exists and is not a symbolic link.
    Conflict,
    /// The filesystem refused for another reason.
    Io,
    /// An entry of a config has the wrong shape.
    Config,
}

/// Why an operation failed.
#[derive(Clone, Copy, Debug, PartialEq, Eq, Structural)]
pub enum Reason {
    /// The document is not well-formed.
    Malformed,
    /// A path spec starts at the home directory, and none is known.
    HomeUnset,
    /// A root directory that the document declares is not on disk.
    RootMissing,
    /// The document has no top-level key of that name.
    UnknownConfig,
    /// The key is there, but its value is no table of entries.
    NotATable,
    /// Something other than a symbolic link is in the way.
    NotASymlink,
    /// The source of an entry is not a string.
    SourceNotString,
    /// Any other failure that the filesystem reported.
    Filesystem,
}

impl Reason {
    /// The class of each reason.
    pub open spec fn kind_of(self) -> ErrorKind {
        match self {
            Reason::Malformed => ErrorKind::Parse,
            Reason::HomeUnset => ErrorKind::NotFound,
            Reason::RootMissing => ErrorKind::NotFound,
            Reason::UnknownConfig => ErrorKind::NotFound,
            Reason::NotATable => ErrorKind::NotFound,
            Reason::NotASymlink => ErrorKind::Conflict,
            Reason::SourceNotString => ErrorKind::Config,
            Reason::Filesystem => ErrorKind::Io,
        }
    }

    /// The words that go with each reason.
    pub open spec fn words(self) -> Seq<char> {
        match self {
            Reason::Malformed => "malformed document"@,
            Reason::HomeUnset => "HOME environment variable does not exist"@,
            Reason::RootMissing => "root directory does not exist"@,
            Reason::UnknownConfig => "no such config"@,
            Reason::NotATable => "not a table of entries"@,
            Reason::NotASymlink => "not a symlink"@,
            Reason::SourceNotString => "not a string"@,
            Reason::Filesystem => "filesystem error"@,
        }
    }

    /// The class of this reason.
    pub fn kind(&self) -> (k: ErrorKind)
        ensures
            k == self.kind_of(),
    {
        match self {
            Reason::Malformed => ErrorKind::Parse,
            Reason::HomeUnset => ErrorKind::NotFound,
            Reason::RootMissing => ErrorKind::NotFound,
            Reason::UnknownConfig => ErrorKind::NotFound,
            Reason::NotATable => ErrorKind::NotFound,
            Reason::NotASymlink => ErrorKind::Conflict,
            Reason::SourceNotString => ErrorKind::Config,
            Reason::Filesystem => ErrorKind::Io,
        }
    }

    /// The words that go with this reason.
    pub fn as_str(&self) -> (s: &'static str)
        ensures
            s@ == self.words(),
    {
        match self {
            Reason::Malformed => "malformed document",
            Reason::HomeUnset => "HOME environment variable does not exist",
            Reason::RootMissing => "root directory does not exist",
            Reason::UnknownConfig => "no such config",
            Reason::NotATable => "not a table of entries",
            Reason::NotASymlink => "not a symlink",
            Reason::SourceNotString => "not a string",
            Reason::Filesystem => "filesystem error",
        }
    }
}

/// An error: the reason, the path or name it is about, and any further
/// words that came with it.
#[derive(Clone, Debug)]
pub struct Failure {
    pub reason: Reason,
    pub path: String,
    pub detail: String,
}

/// A [`Failure`] as plain values.
pub struct FailureView {
    pub reason: Reason,
    pub path: Seq<char>,
    pub detail: Seq<char>,
}

impl View for Failure {
    type V = FailureView;

    open spec fn view(&self) -> FailureView {
        FailureView { reason: self.reason, path: self.path@, detail: self.detail@ }
    }
}

/// The failure with this reason and path and no further words.
pub open spec fn failed(reason: Reason, path: Seq<char>) -> FailureView {
    FailureView { reason, path, detail: Seq::empty() }
}

impl Failure {
    /// A failure with no further words.
    pub fn new(reason: Reason, path: &str) -> (f: Failure)
        ensures
            f@ == failed(reason, path@),
    {
        Failure { reason, path: path.to_owned(), detail: String::new() }
    }

    /// The class of this failure.
    pub fn kind(&self) -> (k: ErrorKind)
        ensures
            k == self@.reason.kind_of(),
    {
        self.reason.kind()
    }

    /// What [`Failure::message`] says: the path, a colon, the reason's
    /// words and, where there are any, the further words in parentheses.
    pub open spec fn message_of(f: FailureView) -> Seq<char> {
        let head = f.path + ": "@ + f.reason.words();
        if f.detail.len() == 0 {
            head
        } else {
            head + " ("@ + f.detail + ")"@
        }
    }

    /// The line that tells a user what failed.
    pub fn message(&self) -> (m: String)
        ensures
            m@ == Self::message_of(self@),
    {
        let mut m = self.path.clone();
        m.append(": ");
        m.append(self.reason.as_str());
        if self.detail.as_str().unicode_len() > 0 {
            m.append(" (");
            m.append(self.detail.as_str());
            m.append(")");
        }
        m
    }
}

} // verus!
