//! The failure taxonomy of the baking pipeline. Every operation of the core
//! returns a discriminated result; there is no local recovery, and each
//! variant carries what the user needs to act on it.

use vstd::prelude::*;
use crate::digits::int_digits;
use crate::digits::i32_to_string;
use crate::platform::CloudPlatform;
use crate::platform::platform_label;

verus! {

/// A structured failure of an invoked external binary: the command line that
/// ran, the exit code where the process reported one, and captured stderr.
#[derive(Debug, PartialEq, Eq)]
pub struct CommandFailure {
    pub command: String,
    pub exit_code: Option<i32>,
    pub stderr: String,
}

/// What can go wrong in the pipeline.
///
/// - `InvalidSpecifier`: a user-supplied operating-system or platform string
///   outside the closed vocabulary, carrying the offending string.
/// - `ExternalCommandFailure`: an invoked external binary exited non-zero or
///   could not run.
/// - `UnresolvedDefaultProject`: the configured default project is unset
///   (`project_id` is `None`) or not among the accessible projects
///   (`project_id` carries the offender).
/// - `UnimplementedPlatform`: a well-formed platform value with no adapter.
/// - `RenderError`: template rendering failed; no artifact is produced.
#[derive(Debug, PartialEq, Eq)]
pub enum Error {
    InvalidSpecifier { specifier: String },
    ExternalCommandFailure { failure: CommandFailure },
    UnresolvedDefaultProject { project_id: Option<String> },
    UnimplementedPlatform { platform: CloudPlatform },
    RenderError { message: String },
}

/// The user-facing text of an error.
pub open spec fn message_spec(e: Error) -> Seq<char> {
    match e {
        Error::InvalidSpecifier { specifier } => "invalid operating system specifier: "@
            + specifier@,
        Error::ExternalCommandFailure { failure } => "exit code "@ + (match failure.exit_code {
            Some(c) => int_digits(c as int),
            None => "?"@,
        }) + " invoking "@ + failure.command@,
        Error::UnresolvedDefaultProject { project_id: None } => "gcloud does not have a configured default project\n\nrun 'gcloud configure set core/project $my_project_id'"@,
        Error::UnresolvedDefaultProject { project_id: Some(p) } => p@
            + " is not a project for your authed gcloud session"@,
        Error::UnimplementedPlatform { platform } => "unable to create packer source for unimplemented platform "@
            + platform_label(platform),
        Error::RenderError { message } => message@,
    }
}

impl Error {
    /// Renders the error for the user.
    pub fn message(&self) -> (r: String)
        ensures
            r@ == message_spec(*self),
    {
        match self {
            Error::InvalidSpecifier { specifier } => {
                let mut s = "invalid operating system specifier: ".to_owned();
                s.append(specifier.as_str());
                s
            },
            Error::ExternalCommandFailure { failure } => {
                let mut s = "exit code ".to_owned();
                match failure.exit_code {
                    Some(c) => s.append(i32_to_string(c).as_str()),
                    None => s.append("?"),
                }
                s.append(" invoking ");
                s.append(failure.command.as_str());
                s
            },
            Error::UnresolvedDefaultProject { project_id: None } => {
                "gcloud does not have a configured default project\n\nrun 'gcloud configure set core/project $my_project_id'".to_owned()
            },
            Error::UnresolvedDefaultProject { project_id: Some(p) } => {
                let mut s = p.clone();
                s.append(" is not a project for your authed gcloud session");
                s
            },
            Error::UnimplementedPlatform { platform } => {
                let mut s = "unable to create packer source for unimplemented platform ".to_owned();
                s.append(platform.to_str());
                s
            },
            Error::RenderError { message } => message.clone(),
        }
    }
}

} // verus!
