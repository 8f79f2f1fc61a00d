//! What the command line of an agent turn keeps from one turn to the next.
use vstd::prelude::*;
use crate::agent::spec_claude_args;

verus! {

/// Resuming a session only appends `--resume <sid>`: every other argument,
/// the MCP configuration and the permission mode among them, is the same
/// as for a fresh turn, and the permission mode is always the one given.
pub proof fn law_resume_only_appends(mcp_config: Seq<char>, permission_mode: Seq<char>, sid: Seq<char>)
    ensures
        spec_claude_args(mcp_config, permission_mode, Some(sid)) == spec_claude_args(
            mcp_config,
            permission_mode,
            None,
        ) + seq!["--resume"@, sid],
        forall|resume: Option<Seq<char>>|
            {
                let a = #[trigger] spec_claude_args(mcp_config, permission_mode, resume);
                &&& a[7] == "--mcp-config"@
                &&& a[8] == mcp_config
                &&& a[9] == "--permission-mode"@
                &&& a[10] == permission_mode
            },
{
    assert(spec_claude_args(mcp_config, permission_mode, Some(sid)) =~= spec_claude_args(
        mcp_config,
        permission_mode,
        None,
    ) + seq!["--resume"@, sid]);
}

} // verus!
