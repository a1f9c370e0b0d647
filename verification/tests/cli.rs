use gxib::cli::args::{Args, SubCommands};
use gxib::cli::cli_interface::{CliInterface, SubCommands as OldSubCommands};
use gxib::cli::desktop_args::DesktopArgs;
use gxib::cli::error::CliError;
use gxib::cli::web_args::WebArgs;
use gxib::cli::web_cmd::WebArgs as OldWebArgs;

fn web_args() -> WebArgs {
    WebArgs {
        serve: Some("localhost:8080".to_string()),
        public_dir: None,
        watch: true,
        hot_reload: false,
        release: false,
        output_dir: "target/.gxi".to_string(),
    }
}

#[test]
fn as_web_on_web() {
    let mut s = SubCommands::Web(web_args());
    assert_eq!(s.as_web().unwrap(), &web_args());
    assert_eq!(s.as_desktop().unwrap_err(), CliError::ExpectedDesktop);
    s.as_web_mut().unwrap().release = true;
    assert!(s.as_web().unwrap().release);
    assert_eq!(s.as_desktop_mut().unwrap_err(), CliError::ExpectedDesktop);
}

#[test]
fn as_desktop_on_desktop() {
    let mut s = SubCommands::Desktop(DesktopArgs {});
    assert_eq!(s.as_desktop().unwrap(), &DesktopArgs {});
    assert!(s.as_desktop_mut().is_ok());
    assert_eq!(s.as_web().unwrap_err(), CliError::ExpectedWeb);
    assert_eq!(s.as_web_mut().unwrap_err(), CliError::ExpectedWeb);
    assert_eq!(CliError::ExpectedWeb.message(), "Expected subcommand to be web");
    assert_eq!(CliError::ExpectedDesktop.message(), "Expected subcommand to be desktop");
}

#[test]
fn args_hold_project_dir() {
    let a = Args { project_dir: "./".to_string(), sub_cmd: SubCommands::Desktop(DesktopArgs {}) };
    assert_eq!(a.project_dir, "./");
    assert!(a.sub_cmd.as_desktop().is_ok());
}

#[test]
fn first_interface_accessors() {
    let mut c = CliInterface {
        dir: "./".to_string(),
        subcmd: OldSubCommands::Web(OldWebArgs { serve: false }),
    };
    c.subcmd.as_web_mut().unwrap().serve = true;
    assert_eq!(c.subcmd, OldSubCommands::Web(OldWebArgs { serve: true }));
    assert_eq!(c.subcmd.as_desktop_mut().unwrap_err(), CliError::ExpectedWeb);
    let mut d = OldSubCommands::Desktop(DesktopArgs {});
    assert!(d.as_desktop_mut().is_ok());
    assert_eq!(d.as_web_mut().unwrap_err(), CliError::ExpectedWeb);
}
