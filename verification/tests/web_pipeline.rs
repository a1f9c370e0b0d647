use gxib::cli::args::{Args, SubCommands};
use gxib::cli::desktop_args::DesktopArgs;
use gxib::cli::error::CliError;
use gxib::cli::web_args::WebArgs;
use gxib::pipelines::desktop::desktop_pipeline::DesktopPipeline;
use gxib::pipelines::web::web_pipeline::{
    triggers_rebuild, RebuildStep, RunPlan, SourceEvent, WebPipeline,
};
use gxib::pipelines::web::ws_actor::ActorMsg;
use gxib::utils::toml_parser::CargoToml;

fn web_args(serve: Option<&str>, watch: bool, hot_reload: bool, release: bool) -> WebArgs {
    WebArgs {
        serve: serve.map(|s| s.to_string()),
        public_dir: None,
        watch,
        hot_reload,
        release,
        output_dir: "/out".to_string(),
    }
}

fn pipeline(w: WebArgs) -> WebPipeline {
    let toml = CargoToml::from_file_contents("Cargo.toml".to_string(), b"[package]\nname = \"app\"\n").unwrap();
    let args = Args { project_dir: "/proj".to_string(), sub_cmd: SubCommands::Web(w) };
    let mut p = WebPipeline::assemble(args, toml, "/proj/target".to_string()).unwrap();
    p.set_wasm_hashed_name("index-42".to_string());
    p
}

fn expected_html(name: &str, serve: Option<&str>) -> String {
    let hot_reload_script = if let Some(serve_addrs) = serve {
        format!(r#"(function () {{
    const socket = new WebSocket('ws://{serve_addrs}/__gxi__');
    socket.addEventListener('open', function (event) {{
        console.log("Gxib > Connected to Server: Hot Reload Enabled");
    }});
    socket.addEventListener('close', function (event) {{
        console.error("Gxib > Disconnected from server");
        if (confirm('Disconnected from server. Refresh ?'))
            location.reload()
    }});
    socket.addEventListener('message', event => {{
        const data = JSON.parse(event.data);
        if (data.event === "FileChange")
            location.reload()
        console.log('Gxib > Message from server ', data);
    }});
}})()"#, serve_addrs = serve_addrs)
    } else {
        String::new()
    };
    format!(
        r#"<!DOCTYPE html>
<html>
  <head>
    <meta charset="utf-8">
    <link rel="preload" href="/{name}.wasm" as="fetch" type="application/wasm">
    <link rel="modulepreload" href="/{name}.js">
  </head>
  <body>
    <script type="module">
        {hot_reload_script}
        import init from '/{name}.js'; init('/{name}.wasm');
    </script>
  </body>
</html>"#,
        name = name,
        hot_reload_script = hot_reload_script
    )
}

#[test]
fn generate_html_without_hot_reload() {
    let p = pipeline(web_args(Some("localhost:8080"), true, false, false));
    assert_eq!(p.generate_html(), expected_html("index-42", None));
}

#[test]
fn generate_html_with_hot_reload() {
    let p = pipeline(web_args(Some("localhost:8080"), true, true, false));
    assert_eq!(p.generate_html(), expected_html("index-42", Some("localhost:8080")));
}

#[test]
fn assemble_needs_web_subcommand() {
    let toml = CargoToml::from_file_contents("Cargo.toml".to_string(), b"[package]\nname = \"app\"\n").unwrap();
    let args = Args { project_dir: "/proj".to_string(), sub_cmd: SubCommands::Desktop(DesktopArgs {}) };
    assert_eq!(WebPipeline::assemble(args, toml, "t".to_string()).err(), Some(CliError::ExpectedWeb));
}

#[test]
fn build_commands() {
    let p = pipeline(web_args(None, false, false, true));
    let b = p.build_command();
    assert_eq!(b.name, "cargo");
    assert_eq!(
        b.args,
        vec!["build", "--target", "wasm32-unknown-unknown", "--target-dir", "/proj/target", "--release"]
    );
    assert_eq!(b.current_dir, Some("/proj".to_string()));
    let debug = pipeline(web_args(None, false, false, false));
    assert_eq!(
        debug.build_command().args,
        vec!["build", "--target", "wasm32-unknown-unknown", "--target-dir", "/proj/target"]
    );
    assert_eq!(
        p.target_wasm_path_parts(),
        vec!["/proj/target", "wasm32-unknown-unknown", "release", "app.wasm"]
    );
    assert_eq!(debug.target_wasm_path_parts()[2], "debug");
    let bind = p.bindings_command(&"/w.wasm".to_string());
    assert_eq!(bind.name, "wasm-bindgen");
    assert_eq!(
        bind.args,
        vec!["/w.wasm", "--target", "web", "--no-typescript", "--out-dir", "/out", "--out-name", "index-42.wasm"]
    );
    assert_eq!(bind.current_dir, None);
    let opt = p.optimise_command();
    assert_eq!(opt.name, "wasm-opt");
    assert_eq!(opt.args, vec!["-Oz", "--dce", "index-42.wasm", "-o", "index-42.wasm"]);
    assert_eq!(opt.current_dir, Some("/out".to_string()));
    assert!(p.needs_optimisation());
    assert!(!debug.needs_optimisation());
    assert_eq!(p.index_html_path_parts(), vec!["/out", "index.html"]);
    assert_eq!(p.source_dir(), "/proj/src");
}

#[test]
fn hashed_name_and_feature() {
    assert_eq!(WebPipeline::hashed_name_for(&"123".to_string()), "index-123");
    let mut toml = CargoToml::from_file_contents("Cargo.toml".to_string(), b"[package]\nname = \"app\"\n").unwrap();
    WebPipeline::add_web_feature(&mut toml);
    assert_eq!(
        toml.to_toml_string().unwrap(),
        "[package]\nname = \"app\"\n[dependencies.gxi]\nversion = \"\"\nfeatures = [\"web\"]\n"
    );
}

#[test]
fn run_plans() {
    assert_eq!(pipeline(web_args(Some("a"), true, true, false)).run_plan(), RunPlan::WatchAndServe { hot_reload: true });
    assert_eq!(pipeline(web_args(Some("a"), true, false, false)).run_plan(), RunPlan::WatchAndServe { hot_reload: false });
    assert_eq!(pipeline(web_args(Some("a"), false, false, false)).run_plan(), RunPlan::ServeOnly);
    assert_eq!(pipeline(web_args(None, true, false, false)).run_plan(), RunPlan::WatchOnly);
    assert_eq!(pipeline(web_args(None, false, false, false)).run_plan(), RunPlan::Nothing);
}

#[test]
fn rebuild_steps() {
    let mut p = pipeline(web_args(Some("a"), true, true, false));
    assert_eq!(p.after_rebuild(None, true), RebuildStep::ReportError);
    assert_eq!(p.wasm_hashed_name(), "index-42");
    assert_eq!(p.after_rebuild(Some(&"7".to_string()), false), RebuildStep::FinishBuild(None));
    assert_eq!(p.wasm_hashed_name(), "index-7");
    assert_eq!(
        p.after_rebuild(Some(&"99".to_string()), true),
        RebuildStep::FinishBuild(Some(ActorMsg::FileChange("index-99".to_string())))
    );
    assert_eq!(p.wasm_hashed_name(), "index-99");
    assert!(triggers_rebuild(SourceEvent::DataModified));
    assert!(!triggers_rebuild(SourceEvent::Other));
}

#[test]
fn desktop_command() {
    let args = Args { project_dir: "/proj".to_string(), sub_cmd: SubCommands::Desktop(DesktopArgs {}) };
    let c = DesktopPipeline { args: &args }.command();
    assert_eq!(c.name, "cargo");
    assert_eq!(c.args, vec!["run"]);
    assert_eq!(c.current_dir, Some("/proj".to_string()));
}
