//! The failures that the core reports.

use vstd::prelude::*;
use vstd::string::*;

verus! {

/// Why an operation on the downloader failed.
#[derive(Debug, Clone, PartialEq, Eq)]
pub enum CoreError {
    /// The downloader could not be found or started; holds the reason.
    ToolInvocation(String),
    /// The downloader ran and reported failure; holds what it wrote to its
    /// error stream.
    ToolExecution(String),
    /// The downloader's output was not one JSON document; holds the
    /// parser's message.
    MetadataParse(String),
}

/// The mathematical content of a [`CoreError`].
pub enum CoreErrorView {
    ToolInvocation(Seq<char>),
    ToolExecution(Seq<char>),
    MetadataParse(Seq<char>),
}

impl View for CoreError {
    type V = CoreErrorView;

    open spec fn view(&self) -> CoreErrorView {
        match self {
            CoreError::ToolInvocation(m) => CoreErrorView::ToolInvocation(m@),
            CoreError::ToolExecution(m) => CoreErrorView::ToolExecution(m@),
            CoreError::MetadataParse(m) => CoreErrorView::MetadataParse(m@),
        }
    }
}

impl CoreErrorView {
    /// The text that the error carries.
    pub open spec fn message(self) -> Seq<char> {
        match self {
            CoreErrorView::ToolInvocation(m) => m,
            CoreErrorView::ToolExecution(m) => m,
            CoreErrorView::MetadataParse(m) => m,
        }
    }
}

impl CoreError {
    /// The text that the error carries, as it is shown to a caller.
    pub fn message(&self) -> (text: String)
        ensures
            text@ == self@.message(),
    {
        match self {
            CoreError::ToolInvocation(m) => m.clone(),
            CoreError::ToolExecution(m) => m.clone(),
            CoreError::MetadataParse(m) => m.clone(),
        }
    }
}

} // verus!
