use vstd::prelude::*;

use super::desktop_args::DesktopArgs;
use super::error::CliError;
use super::web_args::WebArgs;

verus! {

/// The command line of the build tool.
#[derive(Debug, Clone, PartialEq, Eq)]
pub struct Args {
    /// project dir
    pub project_dir: String,
    pub sub_cmd: SubCommands,
}

/// The platform to build for, with its arguments.
#[derive(Debug, Clone, PartialEq, Eq)]
pub enum SubCommands {
    Web(WebArgs),
    Desktop(DesktopArgs),
}

impl SubCommands {
    /// The web arguments; an error where the desktop sub-command was given.
    pub fn as_web(&self) -> (res: Result<&WebArgs, CliError>)
        ensures
            res is Ok <==> *self is Web,
            res matches Ok(w) ==> *w == self->Web_0,
            res matches Err(e) ==> e == CliError::ExpectedWeb,
    {
        match self {
            SubCommands::Web(arg) => Ok(arg),
            _ => Err(CliError::ExpectedWeb),
        }
    }

    /// The web arguments, to change in place; an error where the desktop
    /// sub-command was given.
    pub fn as_web_mut(&mut self) -> (res: Result<&mut WebArgs, CliError>)
        ensures
            res is Ok <==> *old(self) is Web,
            res matches Ok(w) ==> *w == old(self)->Web_0,
            res matches Ok(w) ==> *final(self) == SubCommands::Web(*final(w)),
            res matches Err(e) ==> e == CliError::ExpectedWeb && *final(self) == *old(self),
    {
        match self {
            SubCommands::Web(arg) => Ok(arg),
            _ => Err(CliError::ExpectedWeb),
        }
    }

    /// The desktop arguments; an error where the web sub-command was given.
    pub fn as_desktop(&self) -> (res: Result<&DesktopArgs, CliError>)
        ensures
            res is Ok <==> *self is Desktop,
            res matches Ok(d) ==> *d == self->Desktop_0,
            res matches Err(e) ==> e == CliError::ExpectedDesktop,
    {
        match self {
            SubCommands::Desktop(arg) => Ok(arg),
            _ => Err(CliError::ExpectedDesktop),
        }
    }

    /// The desktop arguments, to change in place; an error where the web
    /// sub-command was given.
    pub fn as_desktop_mut(&mut self) -> (res: Result<&mut DesktopArgs, CliError>)
        ensures
            res is Ok <==> *old(self) is Desktop,
            res matches Ok(d) ==> *d == old(self)->Desktop_0,
            res matches Ok(d) ==> *final(self) == SubCommands::Desktop(*final(d)),
            res matches Err(e) ==> e == CliError::ExpectedDesktop && *final(self) == *old(self),
    {
        match self {
            SubCommands::Desktop(arg) => Ok(arg),
            _ => Err(CliError::ExpectedDesktop),
        }
    }
}

} // verus!
