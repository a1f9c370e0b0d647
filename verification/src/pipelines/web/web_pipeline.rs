//! web pipeline using wasm: the commands it runs, the page it writes, and
//! its decisions on what to run after a build and on file changes.
use vstd::prelude::*;
use vstd::string::*;

use crate::cli::args::{Args, SubCommands};
use crate::cli::error::CliError;
use crate::cli::web_args::WebArgs;
use crate::pipelines::web::ws_actor::ActorMsg;
use crate::utils::exec::{CommandSpec, string_views};
use crate::utils::toml_parser::{CargoToml, gxi_features, string_models, with_gxi_features};
use crate::utils::toml_value::TomlModel;

verus! {

/// Feature of the gxi dependency that selects the web platform.
pub const WEB_FEATURE: &'static str = "web";

/// Target triple of web builds.
pub const WEB_TARGET: &'static str = "wasm32-unknown-unknown";

/// Prefix of the hashed name of the wasm file.
pub const HASHED_NAME_PREFIX: &'static str = "index-";

pub const HTML_HEAD: &'static str = "<!DOCTYPE html>\n<html>\n  <head>\n    <meta charset=\"utf-8\">\n    <link rel=\"preload\" href=\"/";
pub const HTML_AFTER_PRELOAD: &'static str = ".wasm\" as=\"fetch\" type=\"application/wasm\">\n    <link rel=\"modulepreload\" href=\"/";
pub const HTML_AFTER_MODULEPRELOAD: &'static str = ".js\">\n  </head>\n  <body>\n    <script type=\"module\">\n        ";
pub const HTML_AFTER_SCRIPT: &'static str = "\n        import init from '/";
pub const HTML_AFTER_IMPORT: &'static str = ".js'; init('/";
pub const HTML_TAIL: &'static str = ".wasm');\n    </script>\n  </body>\n</html>";

pub const SCRIPT_HEAD: &'static str = "(function () {\n    const socket = new WebSocket('ws://";
pub const SCRIPT_TAIL: &'static str = "/__gxi__');\n    socket.addEventListener('open', function (event) {\n        console.log(\"Gxib > Connected to Server: Hot Reload Enabled\");\n    });\n    socket.addEventListener('close', function (event) {\n        console.error(\"Gxib > Disconnected from server\");\n        if (confirm('Disconnected from server. Refresh ?'))\n            location.reload()\n    });\n    socket.addEventListener('message', event => {\n        const data = JSON.parse(event.data);\n        if (data.event === \"FileChange\")\n            location.reload()\n        console.log('Gxib > Message from server ', data);\n    });\n})()";

/// The script that connects the page to the server's web-socket at
/// `serve_addrs` and reloads it on a file change.
pub open spec fn hot_reload_script(serve_addrs: Seq<char>) -> Seq<char> {
    SCRIPT_HEAD@ + serve_addrs + SCRIPT_TAIL@
}

/// The page that loads `/<name>.js` and `/<name>.wasm`, running `script`
/// first.
pub open spec fn html_page(name: Seq<char>, script: Seq<char>) -> Seq<char> {
    HTML_HEAD@ + name + HTML_AFTER_PRELOAD@ + name + HTML_AFTER_MODULEPRELOAD@ + script
        + HTML_AFTER_SCRIPT@ + name + HTML_AFTER_IMPORT@ + name + HTML_TAIL@
}

/// What the web command does once it has built.
#[derive(Debug, Clone, Copy, PartialEq, Eq)]
pub enum RunPlan {
    /// Watch the sources and serve; the server pushes reloads to the page
    /// where `hot_reload` is set.
    WatchAndServe { hot_reload: bool },
    ServeOnly,
    WatchOnly,
    Nothing,
}

/// The plan for the given web arguments.
pub open spec fn run_plan_of(w: WebArgs) -> RunPlan {
    if w.watch && w.serve is Some {
        RunPlan::WatchAndServe { hot_reload: w.hot_reload }
    } else if w.serve is Some {
        RunPlan::ServeOnly
    } else if w.watch {
        RunPlan::WatchOnly
    } else {
        RunPlan::Nothing
    }
}

/// What the watcher does after a rebuild.
#[derive(Debug, Clone, PartialEq, Eq)]
pub enum RebuildStep {
    /// The build failed: report it and keep watching.
    ReportError,
    /// Run the rest of the build, then send the message to the page, if any.
    FinishBuild(Option<ActorMsg>),
}

/// Appends `s` to a list of strings.
fn push_str(v: &mut Vec<String>, s: &str)
    ensures
        string_views(final(v)@) == string_views(old(v)@).push(s@),
{
    v.push(String::from_str(s));
    assert(string_views(v@) =~= string_views(old(v)@).push(s@));
}

/// Appends a copy of `s` to a list of strings.
fn push_string(v: &mut Vec<String>, s: &String)
    ensures
        string_views(final(v)@) == string_views(old(v)@).push(s@),
{
    v.push(s.clone());
    assert(string_views(v@) =~= string_views(old(v)@).push(s@));
}

/// `a` followed by `b`, as a new string.
fn concat(a: &String, b: &str) -> (res: String)
    ensures
        res@ == a@ + b@,
{
    let mut s = a.clone();
    s.append(b);
    s
}

/// web pipeline using wasm
pub struct WebPipeline {
    args: Args,
    cargo_toml: CargoToml,
    /// directory that cargo builds into
    target_dir: String,
    /// hash of wasm file generated by cargo build
    wasm_hashed_name: String,
}

impl WebPipeline {
    pub closed spec fn args_model(&self) -> Args {
        self.args
    }

    pub closed spec fn cargo_toml_model(&self) -> CargoToml {
        self.cargo_toml
    }

    pub closed spec fn target_dir_view(&self) -> Seq<char> {
        self.target_dir@
    }

    pub closed spec fn hashed_name_view(&self) -> Seq<char> {
        self.wasm_hashed_name@
    }

    /// The pipeline runs the web sub-command.
    pub open spec fn wf(&self) -> bool {
        self.args_model().sub_cmd is Web
    }

    pub open spec fn web(&self) -> WebArgs {
        self.args_model().sub_cmd->Web_0
    }

    /// Adds the web feature to the manifest's `gxi` dependency.
    pub fn add_web_feature(cargo_toml: &mut CargoToml)
        requires
            old(cargo_toml).wf(),
        ensures
            final(cargo_toml).wf(),
            final(cargo_toml).value_model() == with_gxi_features(
                old(cargo_toml).value_model(),
                gxi_features(old(cargo_toml).value_model()).push(
                    TomlModel::Str(WEB_FEATURE@),
                ),
            ),
            final(cargo_toml).package_name_view() == old(cargo_toml).package_name_view(),
            final(cargo_toml).path_view() == old(cargo_toml).path_view(),
    {
        let mut features: Vec<String> = Vec::new();
        features.push(String::from_str(WEB_FEATURE));
        assert(string_models(features@) =~= seq![
            TomlModel::Str(WEB_FEATURE@),
        ]);
        let ghost before = gxi_features(cargo_toml.value_model());
        assert(before + string_models(features@) =~= before.push(
            TomlModel::Str(WEB_FEATURE@),
        ));
        cargo_toml.add_features(features);
    }

    /// The pipeline for `args` and the manifest; an error where the web
    /// sub-command was not given. The hashed name starts out empty.
    pub fn assemble(args: Args, cargo_toml: CargoToml, target_dir: String) -> (res: Result<
        WebPipeline,
        CliError,
    >)
        ensures
            res is Ok <==> args.sub_cmd is Web,
            res matches Err(e) ==> e == CliError::ExpectedWeb,
            res matches Ok(p) ==> {
                &&& p.wf()
                &&& p.args_model() == args
                &&& p.cargo_toml_model() == cargo_toml
                &&& p.target_dir_view() == target_dir@
                &&& p.hashed_name_view() == Seq::<char>::empty()
            },
    {
        match args.sub_cmd.as_web() {
            Ok(_) => Ok(WebPipeline { args, cargo_toml, target_dir, wasm_hashed_name: String::new() }),
            Err(e) => Err(e),
        }
    }

    pub fn args(&self) -> (res: &Args)
        ensures
            *res == self.args_model(),
    {
        &self.args
    }

    pub fn cargo_toml(&self) -> (res: &CargoToml)
        ensures
            *res == self.cargo_toml_model(),
    {
        &self.cargo_toml
    }

    pub fn target_dir(&self) -> (res: &String)
        ensures
            res@ == self.target_dir_view(),
    {
        &self.target_dir
    }

    pub fn wasm_hashed_name(&self) -> (res: &String)
        ensures
            res@ == self.hashed_name_view(),
    {
        &self.wasm_hashed_name
    }

    /// Records the hashed name of the wasm file.
    pub fn set_wasm_hashed_name(&mut self, name: String)
        ensures
            final(self).hashed_name_view() == name@,
            final(self).args_model() == old(self).args_model(),
            final(self).cargo_toml_model() == old(self).cargo_toml_model(),
            final(self).target_dir_view() == old(self).target_dir_view(),
    {
        self.wasm_hashed_name = name;
    }

    /// The web arguments.
    pub fn web_args(&self) -> (res: &WebArgs)
        requires
            self.wf(),
        ensures
            *res == self.web(),
    {
        match &self.args.sub_cmd {
            SubCommands::Web(w) => w,
            _ => vstd::pervasive::unreached(),
        }
    }

    /// The hashed name for a wasm file whose contents hash to `file_hash`:
    /// `index-<hash>`.
    pub fn hashed_name_for(file_hash: &String) -> (res: String)
        ensures
            res@ == HASHED_NAME_PREFIX@ + file_hash@,
    {
        let mut s = String::from_str(HASHED_NAME_PREFIX);
        s.append(file_hash.as_str());
        s
    }

    /// The directory whose changes trigger a rebuild: `<project dir>/src`.
    pub fn source_dir(&self) -> (res: String)
        ensures
            res@ == self.args_model().project_dir@ + "/src"@,
    {
        concat(&self.args.project_dir, "/src")
    }

    /// `cargo build --target wasm32-unknown-unknown --target-dir <target dir>`,
    /// with `--release` for a release build, run in the project directory.
    pub fn build_command(&self) -> (cmd: CommandSpec)
        requires
            self.wf(),
        ensures
            cmd.name@ == "cargo"@,
            cmd.args_view() == seq!["build"@, "--target"@, WEB_TARGET@, "--target-dir"@, self.target_dir_view()]
                + (if self.web().release { seq!["--release"@] } else { Seq::empty() }),
            cmd.dir_view() == Some(self.args_model().project_dir@),
    {
        let web = self.web_args();
        let mut args: Vec<String> = Vec::new();
        push_str(&mut args, "build");
        push_str(&mut args, "--target");
        push_str(&mut args, WEB_TARGET);
        push_str(&mut args, "--target-dir");
        push_string(&mut args, &self.target_dir);
        if web.release {
            push_str(&mut args, "--release");
        }
        let cmd = CommandSpec {
            name: String::from_str("cargo"),
            args,
            current_dir: Some(self.args.project_dir.clone()),
        };
        assert(cmd.args_view() =~= seq!["build"@, "--target"@, WEB_TARGET@, "--target-dir"@, self.target_dir_view()]
            + (if self.web().release { seq!["--release"@] } else { Seq::empty() }));
        cmd
    }

    /// The components of the path of the wasm file that cargo builds:
    /// `<target dir>/wasm32-unknown-unknown/{release,debug}/<package name>.wasm`.
    pub fn target_wasm_path_parts(&self) -> (parts: Vec<String>)
        requires
            self.wf(),
        ensures
            string_views(parts@) == seq![
                self.target_dir_view(),
                WEB_TARGET@,
                if self.web().release { "release"@ } else { "debug"@ },
                self.cargo_toml_model().package_name_view() + ".wasm"@,
            ],
    {
        let web = self.web_args();
        let mut parts: Vec<String> = Vec::new();
        push_string(&mut parts, &self.target_dir);
        push_str(&mut parts, WEB_TARGET);
        if web.release {
            push_str(&mut parts, "release");
        } else {
            push_str(&mut parts, "debug");
        }
        let file = concat(self.cargo_toml.package_name(), ".wasm");
        push_string(&mut parts, &file);
        assert(string_views(parts@) =~= seq![
            self.target_dir_view(),
            WEB_TARGET@,
            if self.web().release { "release"@ } else { "debug"@ },
            self.cargo_toml_model().package_name_view() + ".wasm"@,
        ]);
        parts
    }

    /// `wasm-bindgen <wasm path> --target web --no-typescript --out-dir
    /// <output dir> --out-name <hashed name>.wasm`.
    pub fn bindings_command(&self, wasm_path: &String) -> (cmd: CommandSpec)
        requires
            self.wf(),
        ensures
            cmd.name@ == "wasm-bindgen"@,
            cmd.args_view() == seq![
                wasm_path@,
                "--target"@,
                "web"@,
                "--no-typescript"@,
                "--out-dir"@,
                self.web().output_dir@,
                "--out-name"@,
                self.hashed_name_view() + ".wasm"@,
            ],
            cmd.dir_view() is None,
    {
        let web = self.web_args();
        let mut args: Vec<String> = Vec::new();
        push_string(&mut args, wasm_path);
        push_str(&mut args, "--target");
        push_str(&mut args, "web");
        push_str(&mut args, "--no-typescript");
        push_str(&mut args, "--out-dir");
        push_string(&mut args, &web.output_dir);
        push_str(&mut args, "--out-name");
        let file = concat(&self.wasm_hashed_name, ".wasm");
        push_string(&mut args, &file);
        let cmd = CommandSpec { name: String::from_str("wasm-bindgen"), args, current_dir: None };
        assert(cmd.args_view() =~= seq![
            wasm_path@,
            "--target"@,
            "web"@,
            "--no-typescript"@,
            "--out-dir"@,
            self.web().output_dir@,
            "--out-name"@,
            self.hashed_name_view() + ".wasm"@,
        ]);
        cmd
    }

    /// Whether the bindings are optimised after they are built.
    pub fn needs_optimisation(&self) -> (res: bool)
        requires
            self.wf(),
        ensures
            res == self.web().release,
    {
        self.web_args().release
    }

    /// `wasm-opt -Oz --dce <hashed name>.wasm -o <hashed name>.wasm`, run in
    /// the output directory.
    pub fn optimise_command(&self) -> (cmd: CommandSpec)
        requires
            self.wf(),
        ensures
            cmd.name@ == "wasm-opt"@,
            cmd.args_view() == seq![
                "-Oz"@,
                "--dce"@,
                self.hashed_name_view() + ".wasm"@,
                "-o"@,
                self.hashed_name_view() + ".wasm"@,
            ],
            cmd.dir_view() == Some(self.web().output_dir@),
    {
        let web = self.web_args();
        let file = concat(&self.wasm_hashed_name, ".wasm");
        let mut args: Vec<String> = Vec::new();
        push_str(&mut args, "-Oz");
        push_str(&mut args, "--dce");
        push_string(&mut args, &file);
        push_str(&mut args, "-o");
        push_string(&mut args, &file);
        let cmd = CommandSpec {
            name: String::from_str("wasm-opt"),
            args,
            current_dir: Some(web.output_dir.clone()),
        };
        assert(cmd.args_view() =~= seq![
            "-Oz"@,
            "--dce"@,
            self.hashed_name_view() + ".wasm"@,
            "-o"@,
            self.hashed_name_view() + ".wasm"@,
        ]);
        cmd
    }

    /// The components of the path the page is written to:
    /// `<output dir>/index.html`.
    pub fn index_html_path_parts(&self) -> (parts: Vec<String>)
        requires
            self.wf(),
        ensures
            string_views(parts@) == seq![self.web().output_dir@, "index.html"@],
    {
        let web = self.web_args();
        let mut parts: Vec<String> = Vec::new();
        push_string(&mut parts, &web.output_dir);
        push_str(&mut parts, "index.html");
        assert(string_views(parts@) =~= seq![self.web().output_dir@, "index.html"@]);
        parts
    }

    /// generates html: the page that loads the hashed wasm build, with the
    /// hot-reload script where hot reload is on.
    pub fn generate_html(&self) -> (res: String)
        requires
            self.wf(),
            self.web().hot_reload ==> self.web().serve is Some,
        ensures
            res@ == html_page(
                self.hashed_name_view(),
                if self.web().hot_reload {
                    hot_reload_script(self.web().serve->Some_0@)
                } else {
                    Seq::empty()
                },
            ),
    {
        let web = self.web_args();
        let script = if web.hot_reload {
            match &web.serve {
                Some(serve_addrs) => {
                    let mut s = String::from_str(SCRIPT_HEAD);
                    s.append(serve_addrs.as_str());
                    s.append(SCRIPT_TAIL);
                    s
                },
                None => String::new(),
            }
        } else {
            String::new()
        };
        let name = self.wasm_hashed_name.as_str();
        let mut page = String::from_str(HTML_HEAD);
        page.append(name);
        page.append(HTML_AFTER_PRELOAD);
        page.append(name);
        page.append(HTML_AFTER_MODULEPRELOAD);
        page.append(script.as_str());
        page.append(HTML_AFTER_SCRIPT);
        page.append(name);
        page.append(HTML_AFTER_IMPORT);
        page.append(name);
        page.append(HTML_TAIL);
        page
    }

    /// What to run once the web build is done.
    pub fn run_plan(&self) -> (res: RunPlan)
        requires
            self.wf(),
        ensures
            res == run_plan_of(self.web()),
    {
        let web = self.web_args();
        if web.watch && web.serve.is_some() {
            RunPlan::WatchAndServe { hot_reload: web.hot_reload }
        } else if web.serve.is_some() {
            RunPlan::ServeOnly
        } else if web.watch {
            RunPlan::WatchOnly
        } else {
            RunPlan::Nothing
        }
    }

    /// What the watcher does after a rebuild, given the hash of the wasm
    /// file that the rebuild produced (`None` where the build failed). A
    /// failed build is reported and nothing changes. After a successful one
    /// the hashed name becomes `index-<hash>`, the rest of the build runs
    /// with it, and where the page is connected the file change is sent with
    /// the new name.
    pub fn after_rebuild(&mut self, new_file_hash: Option<&String>, page_connected: bool) -> (res: RebuildStep)
        ensures
            final(self).args_model() == old(self).args_model(),
            final(self).cargo_toml_model() == old(self).cargo_toml_model(),
            final(self).target_dir_view() == old(self).target_dir_view(),
            new_file_hash is None ==> res == RebuildStep::ReportError
                && final(self).hashed_name_view() == old(self).hashed_name_view(),
            new_file_hash matches Some(h) ==> final(self).hashed_name_view() == HASHED_NAME_PREFIX@
                + h@,
            new_file_hash is Some && !page_connected ==> res == RebuildStep::FinishBuild(None),
            new_file_hash is Some && page_connected ==> (res matches RebuildStep::FinishBuild(
                Some(ActorMsg::FileChange(n)),
            ) && n@ == final(self).hashed_name_view()),
    {
        match new_file_hash {
            None => RebuildStep::ReportError,
            Some(hash) => {
                self.wasm_hashed_name = WebPipeline::hashed_name_for(hash);
                if page_connected {
                    RebuildStep::FinishBuild(Some(ActorMsg::FileChange(self.wasm_hashed_name.clone())))
                } else {
                    RebuildStep::FinishBuild(None)
                }
            },
        }
    }
}

/// A change in the watched sources, as the watcher reports it.
#[derive(Debug, Clone, Copy, PartialEq, Eq)]
pub enum SourceEvent {
    /// The data of a file was modified.
    DataModified,
    /// Any other change (creation, removal, metadata, access).
    Other,
}

/// Whether a change in the sources triggers a rebuild: only modified file
/// data does.
pub fn triggers_rebuild(event: SourceEvent) -> (res: bool)
    ensures
        res == (event == SourceEvent::DataModified),
{
    match event {
        SourceEvent::DataModified => true,
        SourceEvent::Other => false,
    }
}


/// What runs after the web build: watching and serving (with hot reload
/// exactly where it was asked for) whenever both were asked for, serving or
/// watching alone where only that was asked for, nothing otherwise. A
/// release build runs the same plan as a debug one, and the directories
/// play no part.
pub proof fn law_run_plan(w: WebArgs, w2: WebArgs)
    requires
        w2.serve == w.serve,
        w2.watch == w.watch,
        w2.hot_reload == w.hot_reload,
    ensures
        w.watch && w.serve is Some ==> run_plan_of(w) == (RunPlan::WatchAndServe {
            hot_reload: w.hot_reload,
        }),
        !w.watch && w.serve is Some ==> run_plan_of(w) == RunPlan::ServeOnly,
        w.watch && w.serve is None ==> run_plan_of(w) == RunPlan::WatchOnly,
        !w.watch && w.serve is None ==> run_plan_of(w) == RunPlan::Nothing,
        run_plan_of(w) == run_plan_of(w2),
{
}

} // verus!
