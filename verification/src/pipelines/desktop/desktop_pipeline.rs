use vstd::prelude::*;
use vstd::string::*;

use crate::cli::args::Args;
use crate::utils::exec::CommandSpec;

verus! {

/// Feature of the gxi dependency that selects the desktop platform.
pub const DESKTOP_FEATURE: &'static str = "desktop";

/// desktop pipeline using gtk
pub struct DesktopPipeline<'a> {
    pub args: &'a Args,
}

impl DesktopPipeline<'_> {
    /// The command that runs the desktop build: `cargo run` in the project
    /// directory.
    pub fn command(&self) -> (cmd: CommandSpec)
        ensures
            cmd.name@ == "cargo"@,
            cmd.args_view() == seq!["run"@],
            cmd.dir_view() == Some(self.args.project_dir@),
    {
        let mut args: Vec<String> = Vec::new();
        args.push(String::from_str("run"));
        let cmd = CommandSpec {
            name: String::from_str("cargo"),
            args,
            current_dir: Some(self.args.project_dir.clone()),
        };
        assert(cmd.args_view() =~= seq!["run"@]);
        cmd
    }
}

} // verus!
