use vstd::prelude::*;

verus! {

/// build for the web platform using wasm
#[derive(Debug, Clone, PartialEq, Eq)]
pub struct WebArgs {
    /// start serving files at host:port
    pub serve: Option<String>,
    /// public dir containing static files eg. css served at /
    pub public_dir: Option<String>,
    /// build on file change
    pub watch: bool,
    /// hot reload build files
    pub hot_reload: bool,
    /// production build
    pub release: bool,
    /// output dir to keep build artifacts
    pub output_dir: String,
}

} // verus!
