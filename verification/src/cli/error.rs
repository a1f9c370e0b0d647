use vstd::prelude::*;
use vstd::string::*;

verus! {

/// The sub-command that was given is not the one asked for.
#[derive(Debug, PartialEq, Eq, Clone, Copy)]
pub enum CliError {
    /// The web sub-command was expected.
    ExpectedWeb,
    /// The desktop sub-command was expected.
    ExpectedDesktop,
}

impl CliError {
    /// The error's message.
    pub fn message(&self) -> (res: String)
        ensures
            *self == CliError::ExpectedWeb ==> res@ == "Expected subcommand to be web"@,
            *self == CliError::ExpectedDesktop ==> res@ == "Expected subcommand to be desktop"@,
    {
        match self {
            CliError::ExpectedWeb => String::from_str("Expected subcommand to be web"),
            CliError::ExpectedDesktop => String::from_str("Expected subcommand to be desktop"),
        }
    }
}

} // verus!
