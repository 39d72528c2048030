//! Adapter that tells a host editor how to launch an external
//! TypeScript/JavaScript language server.
//!
//! The host asks the adapter, through its extension interface, for the
//! command line of the language server that serves a project.  The answer
//! is a fixed launch specification: run the `node` binary on the locally
//! vendored `typescript-language-server` script in stdio mode.  The adapter
//! is stateless and its one operation is a pure, context-independent
//! constant function: it ignores which language server was named and which
//! worktree is open, and it cannot fail.

use vstd::prelude::*;

verus! {

/// How to start the external language-server process: an executable name,
/// an ordered argument list, and environment-variable overrides.
///
/// The host owns the returned value and uses it to spawn the process; this
/// crate never spawns anything itself.
pub struct LaunchSpec {
    /// Name of the executable to run.
    pub command: String,
    /// Arguments handed to the executable, in order.
    pub args: Vec<String>,
    /// Environment variables to set for the process, as name/value pairs.
    pub env: Vec<(String, String)>,
}

/// Mathematical view of a [`LaunchSpec`]: the same three fields over
/// sequences of characters.
#[verifier::ext_equal]
pub struct LaunchSpecView {
    pub command: Seq<char>,
    pub args: Seq<Seq<char>>,
    pub env: Seq<(Seq<char>, Seq<char>)>,
}

impl View for LaunchSpec {
    type V = LaunchSpecView;

    open spec fn view(&self) -> LaunchSpecView {
        LaunchSpecView {
            command: self.command@,
            args: self.args@.map_values(|a: String| a@),
            env: self.env@.map_values(|p: (String, String)| (p.0@, p.1@)),
        }
    }
}

/// The one launch specification this adapter ever serves: the `node`
/// runtime, told to run the vendored language-server script over stdio,
/// with no environment overrides.
pub open spec fn fixed_launch_view() -> LaunchSpecView {
    LaunchSpecView {
        command: "node"@,
        args: seq!["node_modules/.bin/typescript-language-server"@, "--stdio"@],
        env: Seq::empty(),
    }
}

/// Identity of the language server the host is asking about.  The host
/// supplies it; the adapter accepts it and ignores it, since only one
/// language server is ever served.
pub struct LanguageServerId {
    pub name: String,
}

/// The host's description of the open project directory.  Accepted and
/// ignored, like [`LanguageServerId`].
pub struct WorktreeContext {
    pub root_path: String,
}

/// The extension adapter itself: a stateless singleton the host creates
/// once at load time.
pub struct CassandraOrmExtension;

impl CassandraOrmExtension {
    /// Creates the adapter.  Takes no arguments and cannot fail, as the
    /// host's instantiation protocol requires.
    pub fn new() -> CassandraOrmExtension {
        CassandraOrmExtension
    }

    /// Resolves the command line that launches the language server.
    ///
    /// Always succeeds, and always returns the same fixed specification,
    /// whatever the two inputs hold — empty or degenerate values included.
    /// The adapter's state is untouched.
    pub fn language_server_command(
        &mut self,
        _language_server_id: &LanguageServerId,
        _worktree: &WorktreeContext,
    ) -> (r: Result<LaunchSpec, String>)
        ensures
            r matches Ok(c) && c@ == fixed_launch_view(),
            *final(self) == *old(self),
    {
        let command = "node".to_string();
        let mut args: Vec<String> = Vec::new();
        args.push("node_modules/.bin/typescript-language-server".to_string());
        args.push("--stdio".to_string());
        let env: Vec<(String, String)> = Vec::new();
        let result = LaunchSpec { command, args, env };
        proof {
            assert(result@ =~~= fixed_launch_view());
        }
        Ok(result)
    }
}

/// The resolution operation is pure and idempotent: its contract admits
/// exactly one launch specification, so the results of any two calls —
/// repeated calls, or calls with identical or differing inputs — are
/// equal values.
pub proof fn lemma_resolution_pure(a: LaunchSpecView, b: LaunchSpecView)
    requires
        a == fixed_launch_view(),
        b == fixed_launch_view(),
    ensures
        a == b,
{
}

} // verus!

