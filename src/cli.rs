//! The command-line options, as plain values.

use vstd::prelude::*;

verus! {

/// The options a run is started with.
#[derive(Clone, Debug)]
pub struct Args {
    /// Do not mount the ssh directory (`$HOME/.ssh`) into the container.
    pub disable_ssh: bool,
    /// Do not prefix the container runtime with `sudo`.
    pub disable_sudo: bool,
    /// Mount the cargo caches (`$HOME/.cargo/git`, `$HOME/.cargo/registry`);
    /// when absent the configuration file decides.
    pub enable_rust_cache: Option<bool>,
    /// The directory mounted at the same path inside the container.
    pub base_path: Option<String>,
    /// The user the image runs as.
    pub user: String,
    /// The image to run.
    pub image: String,
    /// The command run inside the container, word by word.
    pub command: Vec<String>,
}

} // verus!
