//! The failures of the segmentation engine: a closed set of kinds, each with a
//! detail text for the person who reads it.

use vstd::prelude::*;

verus! {

/// The kind of a failure, without its detail text.
#[derive(Clone, Copy, Debug, PartialEq, Eq, Structural)]
pub enum ErrorKind {
    /// The selected point cloud could not be read, or the capture holds none.
    LoadError,
    /// A message was sent while the engine was in a state that forbids it.
    Incomplete,
    /// The input path could not be opened.
    FileNotFound,
    /// The capture's container header could not be parsed.
    InvalidFormat,
    /// The columns of a table could not be put together.
    DataFrameError,
}

/// A failure of the engine. The text inside each variant is the detail.
#[derive(Debug, PartialEq, Eq)]
pub enum SegmentationError {
    LoadError(String),
    Incomplete(String),
    FileNotFound(String),
    InvalidFormat(String),
    DataFrameError(String),
}

/// What a `SegmentationError` stands for: its kind and the characters of its detail.
pub struct ErrorView {
    pub kind: ErrorKind,
    pub detail: Seq<char>,
}

impl View for SegmentationError {
    type V = ErrorView;

    open spec fn view(&self) -> ErrorView {
        match self {
            SegmentationError::LoadError(d) => ErrorView { kind: ErrorKind::LoadError, detail: d@ },
            SegmentationError::Incomplete(d) => ErrorView {
                kind: ErrorKind::Incomplete,
                detail: d@,
            },
            SegmentationError::FileNotFound(d) => ErrorView {
                kind: ErrorKind::FileNotFound,
                detail: d@,
            },
            SegmentationError::InvalidFormat(d) => ErrorView {
                kind: ErrorKind::InvalidFormat,
                detail: d@,
            },
            SegmentationError::DataFrameError(d) => ErrorView {
                kind: ErrorKind::DataFrameError,
                detail: d@,
            },
        }
    }
}

/// The words that introduce the detail of a failure of the given kind.
pub open spec fn heading(kind: ErrorKind) -> Seq<char> {
    match kind {
        ErrorKind::LoadError => "Load error: "@,
        ErrorKind::Incomplete => "Incomplete operation: "@,
        ErrorKind::FileNotFound => "File not found: "@,
        ErrorKind::InvalidFormat => "Invalid file format: "@,
        ErrorKind::DataFrameError => "Cannot generate dataframe from supplied data: "@,
    }
}

impl SegmentationError {
    /// The kind of this failure.
    pub fn kind(&self) -> (k: ErrorKind)
        ensures
            k == self@.kind,
    {
        match self {
            SegmentationError::LoadError(_) => ErrorKind::LoadError,
            SegmentationError::Incomplete(_) => ErrorKind::Incomplete,
            SegmentationError::FileNotFound(_) => ErrorKind::FileNotFound,
            SegmentationError::InvalidFormat(_) => ErrorKind::InvalidFormat,
            SegmentationError::DataFrameError(_) => ErrorKind::DataFrameError,
        }
    }

    /// The detail text of this failure.
    pub fn detail(&self) -> (d: &str)
        ensures
            d@ == self@.detail,
    {
        match self {
            SegmentationError::LoadError(d) => d.as_str(),
            SegmentationError::Incomplete(d) => d.as_str(),
            SegmentationError::FileNotFound(d) => d.as_str(),
            SegmentationError::InvalidFormat(d) => d.as_str(),
            SegmentationError::DataFrameError(d) => d.as_str(),
        }
    }

    /// The failure as one line of text: the heading of its kind, then its detail.
    pub fn message(&self) -> (text: String)
        ensures
            text@ == heading(self@.kind) + self@.detail,
    {
        let head = match self {
            SegmentationError::LoadError(_) => "Load error: ",
            SegmentationError::Incomplete(_) => "Incomplete operation: ",
            SegmentationError::FileNotFound(_) => "File not found: ",
            SegmentationError::InvalidFormat(_) => "Invalid file format: ",
            SegmentationError::DataFrameError(_) => "Cannot generate dataframe from supplied data: ",
        };
        String::from_str(head).concat(self.detail())
    }
}

impl Clone for SegmentationError {
    fn clone(&self) -> (copy: Self)
        ensures
            copy == *self,
    {
        match self {
            SegmentationError::LoadError(d) => SegmentationError::LoadError(d.clone()),
            SegmentationError::Incomplete(d) => SegmentationError::Incomplete(d.clone()),
            SegmentationError::FileNotFound(d) => SegmentationError::FileNotFound(d.clone()),
            SegmentationError::InvalidFormat(d) => SegmentationError::InvalidFormat(d.clone()),
            SegmentationError::DataFrameError(d) => SegmentationError::DataFrameError(d.clone()),
        }
    }
}

} // verus!
