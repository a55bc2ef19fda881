//! Errors that a compile request can end in.

use vstd::prelude::*;
use vstd::string::*;

verus! {

/// A rejection of the source by the shader translator.
#[derive(Debug, PartialEq, Eq)]
pub struct CompilationError {
    /// The source file, absent when the source was handed over as text.
    pub file: Option<String>,
    /// The translator's diagnostic, as it gave it.
    pub description: String,
}

/// Mathematical content of a [`CompilationError`].
pub struct CompilationErrorView {
    pub file: Option<Seq<char>>,
    pub description: Seq<char>,
}

impl View for CompilationError {
    type V = CompilationErrorView;

    open spec fn view(&self) -> CompilationErrorView {
        CompilationErrorView {
            file: match self.file {
                Some(file) => Some(file@),
                None => None,
            },
            description: self.description@,
        }
    }
}

impl CompilationErrorView {
    /// The message that describes the error to a reader.
    pub open spec fn text(self) -> Seq<char> {
        match self.file {
            Some(file) => "file: "@ + file + ", description: "@ + self.description,
            None => "description: "@ + self.description,
        }
    }
}

impl CompilationError {
    /// The message that describes the error to a reader.
    pub fn to_string(&self) -> (text: String)
        ensures
            text@ == self@.text(),
    {
        match &self.file {
            Some(file) => {
                let mut text = String::from_str("file: ");
                text.append(file.as_str());
                text.append(", description: ");
                text.append(self.description.as_str());
                text
            },
            None => {
                let mut text = String::from_str("description: ");
                text.append(self.description.as_str());
                text
            },
        }
    }
}

impl Clone for CompilationError {
    fn clone(&self) -> (copy: Self)
        ensures
            copy@ == self@,
    {
        CompilationError {
            file: match &self.file {
                Some(file) => Some(file.clone()),
                None => None,
            },
            description: self.description.clone(),
        }
    }
}

/// Why a compile request failed.
#[derive(Debug, PartialEq, Eq)]
pub enum CompilerError {
    /// The translator rejected the source.
    Log(CompilationError),
    /// The source file could not be opened or read; holds the description
    /// of the underlying failure.
    LoadError(String),
    /// The compiled binary could not be stored beside the source; holds the
    /// description of the underlying failure.
    WriteError(String),
}

/// Mathematical content of a [`CompilerError`].
pub enum CompilerErrorView {
    Log(CompilationErrorView),
    LoadError(Seq<char>),
    WriteError(Seq<char>),
}

impl View for CompilerError {
    type V = CompilerErrorView;

    open spec fn view(&self) -> CompilerErrorView {
        match self {
            CompilerError::Log(error) => CompilerErrorView::Log(error@),
            CompilerError::LoadError(reason) => CompilerErrorView::LoadError(reason@),
            CompilerError::WriteError(reason) => CompilerErrorView::WriteError(reason@),
        }
    }
}

impl CompilerErrorView {
    /// The message that describes the error to a reader.
    pub open spec fn text(self) -> Seq<char> {
        "Error: "@ + match self {
            CompilerErrorView::Log(error) => error.text(),
            CompilerErrorView::LoadError(reason) => "could not load file: "@ + reason,
            CompilerErrorView::WriteError(reason) => "could not write file: "@ + reason,
        }
    }
}

impl CompilerError {
    /// The message that describes the error to a reader.
    pub fn to_string(&self) -> (text: String)
        ensures
            text@ == self@.text(),
    {
        let mut text = String::from_str("Error: ");
        match self {
            CompilerError::Log(error) => {
                let inner = error.to_string();
                text.append(inner.as_str());
            },
            CompilerError::LoadError(reason) => {
                text.append("could not load file: ");
                text.append(reason.as_str());
            },
            CompilerError::WriteError(reason) => {
                text.append("could not write file: ");
                text.append(reason.as_str());
            },
        }
        text
    }
}

impl Clone for CompilerError {
    fn clone(&self) -> (copy: Self)
        ensures
            copy@ == self@,
    {
        match self {
            CompilerError::Log(error) => CompilerError::Log(error.clone()),
            CompilerError::LoadError(reason) => CompilerError::LoadError(reason.clone()),
            CompilerError::WriteError(reason) => CompilerError::WriteError(reason.clone()),
        }
    }
}

impl From<CompilationError> for CompilerError {
    fn from(val: CompilationError) -> (error: CompilerError) {
        CompilerError::Log(val)
    }
}

impl vstd::std_specs::convert::FromSpecImpl<CompilationError> for CompilerError {
    open spec fn obeys_from_spec() -> bool {
        true
    }

    open spec fn from_spec(val: CompilationError) -> CompilerError {
        CompilerError::Log(val)
    }
}

} // verus!
