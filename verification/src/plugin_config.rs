//! What the command line says of how the editor is to be launched.

use vstd::prelude::*;

verus! {

/// The program that hosts the editor.
#[derive(Debug, Clone, Copy, PartialEq, Eq, Structural)]
pub enum LauncherType {
    Neovide,
    Terminal,
}

/// The kind of socket that a running editor listens on.
#[derive(Debug, Clone, Copy, PartialEq, Eq, Structural)]
pub enum SocketType {
    Fsock,
    Netsock,
}

/// The launch settings as given on the command line.
#[derive(Debug, Clone)]
pub struct PluginConfig {
    pub launcher_type: Option<LauncherType>,
    pub socket_type: Option<SocketType>,
    pub executable: Option<String>,
    pub arguments: Option<Vec<String>>,
}

} // verus!
