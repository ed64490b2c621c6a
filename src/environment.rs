//! Decisions of the Node.js environment setup that the MCP server needs. The
//! shell commands themselves are run by the application.
use vstd::prelude::*;
use crate::text::{
    after_first_line, chars_of, contains_seq, contains_str, first_line, first_two_lines,
    trim_range, trimmed,
};

verus! {

/// What the setup has learnt and where it stands.
#[derive(Debug)]
pub struct EnvironmentState {
    /// In test mode nothing is checked or installed.
    pub test_mode: bool,
    pub nvm_installed: bool,
    pub node_installed: bool,
    pub setup_started: bool,
    pub setup_completed: bool,
}

/// The Node.js version the MCP server runs on.
pub open spec fn node_version_spec() -> Seq<char> {
    "v20.9.0"@
}

/// The Node.js version the MCP server runs on.
pub fn node_version() -> (r: String)
    ensures
        r@ == node_version_spec(),
{
    "v20.9.0".to_owned()
}

/// What remains to install, from what the checks found.
#[derive(Debug)]
pub struct NodeSetupPlan {
    pub install_nvm: bool,
    pub install_node: bool,
}

/// How a request to set up the environment is answered.
#[derive(Debug)]
pub enum SetupStart {
    /// Test mode: report the setup as started and do nothing.
    Skipped,
    /// Another setup is running.
    AlreadyRunning,
    /// Run the setup now.
    Run,
}

impl EnvironmentState {
    /// Nothing learnt yet, outside test mode unless asked.
    pub fn new(test_mode: bool) -> (r: EnvironmentState)
        ensures
            r.test_mode == test_mode,
            !r.nvm_installed && !r.node_installed,
            !r.setup_started && !r.setup_completed,
    {
        EnvironmentState {
            test_mode,
            nvm_installed: false,
            node_installed: false,
            setup_started: false,
            setup_completed: false,
        }
    }

    /// Marks a setup as started unless one already is.
    pub fn begin_setup(&mut self) -> (r: SetupStart)
        ensures
            old(self).test_mode ==> r == SetupStart::Skipped && *final(self) == *old(self),
            !old(self).test_mode && old(self).setup_started ==> r == SetupStart::AlreadyRunning
                && *final(self) == *old(self),
            !old(self).test_mode && !old(self).setup_started ==> r == SetupStart::Run
                && final(self).setup_started && final(self).test_mode == old(self).test_mode
                && final(self).nvm_installed == old(self).nvm_installed
                && final(self).node_installed == old(self).node_installed
                && final(self).setup_completed == old(self).setup_completed,
    {
        if self.test_mode {
            SetupStart::Skipped
        } else if self.setup_started {
            SetupStart::AlreadyRunning
        } else {
            self.setup_started = true;
            SetupStart::Run
        }
    }

    /// Records the end of a setup: it is no longer running, and it is
    /// complete exactly when it succeeded.
    pub fn finish_setup(&mut self, succeeded: bool)
        ensures
            !final(self).setup_started,
            final(self).setup_completed == succeeded,
            final(self).test_mode == old(self).test_mode,
            final(self).nvm_installed == old(self).nvm_installed,
            final(self).node_installed == old(self).node_installed,
    {
        self.setup_started = false;
        self.setup_completed = succeeded;
    }

    /// Decides what to install: nvm when it is missing, Node.js when the
    /// version found (if any) is not the required one. Nothing in test mode.
    /// A required version found is remembered.
    pub fn ensure_node_environment(&mut self, nvm_present: bool, node_found: &Option<String>) -> (r:
        NodeSetupPlan)
        ensures
            old(self).test_mode ==> !r.install_nvm && !r.install_node && *final(self) == *old(self),
            !old(self).test_mode ==> {
                &&& r.install_nvm == !nvm_present
                &&& r.install_node == !(node_found is Some && node_found->Some_0@
                    == node_version_spec())
                &&& final(self).node_installed == (old(self).node_installed || !r.install_node)
                &&& final(self).nvm_installed == (old(self).nvm_installed || nvm_present)
                &&& final(self).test_mode == old(self).test_mode
                &&& final(self).setup_started == old(self).setup_started
                &&& final(self).setup_completed == old(self).setup_completed
            },
    {
        if is_test_mode(self) {
            return NodeSetupPlan { install_nvm: false, install_node: false };
        }
        let required = node_version();
        let node_ok = match node_found {
            Some(v) => *v == required,
            None => false,
        };
        if nvm_present {
            self.nvm_installed = true;
        }
        if node_ok {
            self.node_installed = true;
        }
        NodeSetupPlan { install_nvm: !nvm_present, install_node: !node_ok }
    }
}

/// Why the output of `which node` / `which npx` gives no usable paths.
#[derive(Debug)]
pub enum NodePathError {
    /// The output has no first line.
    MissingNodePath,
    /// The output has no second line.
    MissingNpxPath,
    /// The node path does not lie in an nvm installation.
    NotFromNvm,
}

/// The directory part that marks a node installed by nvm.
pub open spec fn nvm_node_marker() -> Seq<char> {
    ".nvm/versions/node"@
}

/// The node and npx paths in the output of `which node` and `which npx`:
/// its first two lines, trimmed. With `require_nvm` the node path must lie
/// in an nvm installation.
pub open spec fn node_paths_of(output: Seq<char>, require_nvm: bool) -> Result<
    (Seq<char>, Seq<char>),
    NodePathError,
> {
    match (first_line(output), first_line(after_first_line(output))) {
        (None, _) => Err(NodePathError::MissingNodePath),
        (Some(_), None) => Err(NodePathError::MissingNpxPath),
        (Some(node), Some(npx)) => if require_nvm && !contains_seq(trimmed(node), nvm_node_marker()) {
            Err(NodePathError::NotFromNvm)
        } else {
            Ok((trimmed(node), trimmed(npx)))
        },
    }
}

/// The node and npx paths reported in test mode.
pub fn test_node_paths() -> (r: (String, String))
    ensures
        r.0@ == "/test/.nvm/versions/node/v20.9.0/bin/node"@,
        r.1@ == "/test/.nvm/versions/node/v20.9.0/bin/npx"@,
{
    (
        "/test/.nvm/versions/node/v20.9.0/bin/node".to_owned(),
        "/test/.nvm/versions/node/v20.9.0/bin/npx".to_owned(),
    )
}

/// Reads the node and npx paths from the output of `which node` and
/// `which npx`.
pub fn node_paths_from_output(output: &str, require_nvm: bool) -> (r: Result<
    (String, String),
    NodePathError,
>)
    ensures
        match (r, node_paths_of(output@, require_nvm)) {
            (Ok((a, b)), Ok((x, y))) => a@ == x && b@ == y,
            (Err(e), Err(f)) => e == f,
            _ => false,
        },
{
    let (first, second) = first_two_lines(output);
    match (first, second) {
        (None, _) => Err(NodePathError::MissingNodePath),
        (Some(_), None) => Err(NodePathError::MissingNpxPath),
        (Some(node), Some(npx)) => {
            if require_nvm && !contains_str(node.as_str(), ".nvm/versions/node") {
                Err(NodePathError::NotFromNvm)
            } else {
                Ok((node, npx))
            }
        },
    }
}

/// Whether the output of `nvm list` names the required version.
pub fn nvm_lists_node_version(output: &str) -> (r: bool)
    ensures
        r == contains_seq(output@, node_version_spec()),
{
    let v = node_version();
    contains_str(output, v.as_str())
}

/// The version that `node --version` printed: its output, trimmed.
pub fn node_version_from_output(output: &str) -> (r: String)
    ensures
        r@ == trimmed(output@),
{
    let cs = chars_of(output);
    let r = trim_range(output, &cs, 0, cs.len());
    assert(cs@.subrange(0, cs@.len() as int) =~= output@);
    r
}

/// Whether the setup runs in test mode.
pub fn is_test_mode(env: &EnvironmentState) -> (r: bool)
    ensures
        r == env.test_mode,
{
    env.test_mode
}

} // verus!
