//! The error taxonomy of the shell core, and the single presentation
//! layer that renders each error as the one-line message the user
//! sees. Collaborator-reported failures carry their own message and
//! are rendered verbatim.

use vstd::prelude::*;

verus! {

/// Everything that can go wrong inside the core.
pub enum ShellError {
    /// A source string that is neither a scheme endpoint nor an
    /// existing file.
    InvalidArgument { arg: String },
    /// A connect target matching neither scheme.
    InvalidUrl,
    /// A load path naming no existing regular file.
    PathNotFound { path: String },
    /// A function name absent from the current project.
    FunctionNotFound { name: String },
    /// A command that needs a project, issued with none loaded.
    NoProjectLoaded,
    /// An unrecognized verb/argument shape.
    InvalidCommand { verb: String, arg: String },
    /// A transport or remote-loader failure, message opaque to the core.
    RemoteLoadFailure { message: String },
    /// A collaborator-reported per-function decompilation failure.
    DecompileFailure { message: String },
    /// Batch mode started with an empty project store.
    NoProjectForBatch,
}

/// The exact text each error renders to.
pub open spec fn spec_error_text(e: ShellError) -> Seq<char> {
    match e {
        ShellError::InvalidArgument { arg } => "Invalid argument "@ + arg@,
        ShellError::InvalidUrl => "Invalid url"@,
        ShellError::PathNotFound { path } => path@ + " is not found."@,
        ShellError::FunctionNotFound { name } => name@ + " is not found"@,
        ShellError::NoProjectLoaded => "Load a project first"@,
        ShellError::InvalidCommand { verb, arg } => "Invalid command "@ + verb@ + " "@ + arg@,
        ShellError::RemoteLoadFailure { message } => message@,
        ShellError::DecompileFailure { message } => message@,
        ShellError::NoProjectForBatch => "Project was not loaded!"@,
    }
}

/// Render an error to its one-line message.
pub fn render_error(e: &ShellError) -> (s: String)
    ensures
        s@ == spec_error_text(*e),
{
    match e {
        ShellError::InvalidArgument { arg } => {
            let mut s = "Invalid argument ".to_owned();
            s.append(arg.as_str());
            s
        },
        ShellError::InvalidUrl => "Invalid url".to_owned(),
        ShellError::PathNotFound { path } => {
            let mut s = path.clone();
            s.append(" is not found.");
            s
        },
        ShellError::FunctionNotFound { name } => {
            let mut s = name.clone();
            s.append(" is not found");
            s
        },
        ShellError::NoProjectLoaded => "Load a project first".to_owned(),
        ShellError::InvalidCommand { verb, arg } => {
            let mut s = "Invalid command ".to_owned();
            s.append(verb.as_str());
            s.append(" ");
            s.append(arg.as_str());
            s
        },
        ShellError::RemoteLoadFailure { message } => message.clone(),
        ShellError::DecompileFailure { message } => message.clone(),
        ShellError::NoProjectForBatch => "Project was not loaded!".to_owned(),
    }
}

} // verus!
