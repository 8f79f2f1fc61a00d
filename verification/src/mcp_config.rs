//! The MCP configuration handed to the agent CLI's `--mcp-config`, and where the
//! bundled desktop-control server is looked for.
use vstd::prelude::*;
use vstd::string::*;
use crate::json::{Json, empty_object, is_object_with, object1, object3, str_of};
use crate::mcp::string_views;
use crate::paths::{join, path_join};
use crate::text::{decimal, push_decimal, push_str};

verus! {

/// The name of the desktop-control server's program.
pub open spec fn server_program() -> Seq<char> {
    "mcp-linux-control"@
}

/// The configuration that registers the server program at `binary` as the
/// MCP server `linux_control`, with no arguments and no environment.
pub open spec fn is_default_config(c: Json, binary: Seq<char>) -> bool {
    &&& is_object_with(c, seq!["mcpServers"@])
    &&& c.spec_get("mcpServers"@) matches Some(servers) && is_object_with(servers, seq!["linux_control"@])
        && (servers.spec_get("linux_control"@) matches Some(s) && {
        &&& is_object_with(s, seq!["command"@, "args"@, "env"@])
        &&& str_of(s.spec_get("command"@)) == Some(binary)
        &&& s.spec_get("args"@) matches Some(Json::Array(a)) && a@.len() == 0
        &&& s.spec_get("env"@) matches Some(e) && is_object_with(e, seq![])
    })
}

pub fn default_mcp_config(server_binary: &str) -> (r: Json)
    ensures
        is_default_config(r, server_binary@),
{
    proof {
        reveal_strlit("command");
        reveal_strlit("args");
        reveal_strlit("env");
        assert("command"@[0] != "args"@[0]);
        assert("command"@[0] != "env"@[0]);
        assert("args"@[0] != "env"@[0]);
    }
    let server = object3(
        "command",
        Json::string(server_binary),
        "args",
        Json::Array(Vec::new()),
        "env",
        empty_object(),
    );
    object1("mcpServers", object1("linux_control", server))
}

/// The file the configuration is written to: `mcp.json` in a folder of
/// the temporary directory named after the running process.
pub open spec fn spec_config_path(temp_dir: Seq<char>, pid: u32) -> Seq<char> {
    path_join(path_join(temp_dir, "linux-coworker-ui-"@ + decimal(pid as nat)), "mcp.json"@)
}

pub fn config_path(temp_dir: &str, pid: u32) -> (r: String)
    ensures
        r@ == spec_config_path(temp_dir@, pid),
{
    let mut dir_name = String::from_str("linux-coworker-ui-");
    push_decimal(&mut dir_name, pid as u128);
    let dir = join(temp_dir, dir_name.as_str());
    join(dir.as_str(), "mcp.json")
}

/// The folder that holds the configuration file.
pub fn config_dir(temp_dir: &str, pid: u32) -> (r: String)
    ensures
        r@ == path_join(temp_dir@, "linux-coworker-ui-"@ + decimal(pid as nat)),
{
    let mut dir_name = String::from_str("linux-coworker-ui-");
    push_decimal(&mut dir_name, pid as u128);
    join(temp_dir, dir_name.as_str())
}

/// The parent of a path, as `std::path::Path::parent` computes it: the
/// path without its final component.
pub uninterp spec fn path_parent(p: Seq<char>) -> Option<Seq<char>>;

/// `std::path::Path::parent`: the path without its final component, `None`
/// for a root or empty path. The parent is a slice of the path that starts
/// where the path starts and drops at least the final component, so it is
/// a strictly shorter prefix.
#[verifier::external_body]
fn parent_of(p: &str) -> (r: Option<String>)
    ensures
        match r {
            Some(q) => path_parent(p@) == Some(q@) && q@.len() < p@.len() && q@ == p@.take(
                q@.len() as int,
            ),
            None => path_parent(p@) is None,
        },
{
    std::path::Path::new(p).parent().map(|q| q.to_string_lossy().into_owned())
}

/// Where a development build keeps the server, for the folder `p` and
/// each folder above it: `<folder>/target/debug/mcp-linux-control`, then
/// `<folder>/target/release/mcp-linux-control`.
pub open spec fn build_candidates(p: Seq<char>) -> Seq<Seq<char>>
    decreases p.len(),
{
    let here = seq![
        path_join(path_join(path_join(p, "target"@), "debug"@), server_program()),
        path_join(path_join(path_join(p, "target"@), "release"@), server_program()),
    ];
    match path_parent(p) {
        Some(q) => if q.len() < p.len() {
            here + build_candidates(q)
        } else {
            here
        },
        None => here,
    }
}

/// The places the server program is looked for, in order, for an
/// application whose executable is `exe`: beside the executable (with and
/// without the target-triple suffix), then in the `target/debug` and
/// `target/release` build folders of the executable's path and of every
/// folder above it.
pub open spec fn spec_server_candidates(exe: Seq<char>) -> Seq<Seq<char>> {
    let beside = match path_parent(exe) {
        Some(dir) => seq![
            path_join(dir, server_program()),
            path_join(dir, "mcp-linux-control-x86_64-unknown-linux-gnu"@),
        ],
        None => seq![],
    };
    beside + build_candidates(exe)
}

fn push_candidate(out: &mut Vec<String>, c: String)
    ensures
        string_views(final(out)@) == string_views(old(out)@).push(c@),
{
    let ghost before = out@;
    out.push(c);
    assert(string_views(out@) =~= string_views(before).push(c@));
}

pub fn server_binary_candidates(exe: &str) -> (r: Vec<String>)
    ensures
        string_views(r@) == spec_server_candidates(exe@),
{
    let mut out: Vec<String> = Vec::new();
    match parent_of(exe) {
        Some(dir) => {
            push_candidate(&mut out, join(dir.as_str(), "mcp-linux-control"));
            push_candidate(
                &mut out,
                join(dir.as_str(), "mcp-linux-control-x86_64-unknown-linux-gnu"),
            );
        },
        None => {},
    }
    let ghost beside = string_views(out@);
    assert(beside == match path_parent(exe@) {
        Some(dir) => seq![
            path_join(dir, server_program()),
            path_join(dir, "mcp-linux-control-x86_64-unknown-linux-gnu"@),
        ],
        None => Seq::<Seq<char>>::empty(),
    });
    assert(beside + build_candidates(exe@) == spec_server_candidates(exe@));
    let mut cur = String::from_str(exe);
    loop
        invariant
            string_views(out@) + build_candidates(cur@) == beside + build_candidates(exe@),
            beside + build_candidates(exe@) == spec_server_candidates(exe@),
        decreases cur@.len(),
    {
        let target = join(cur.as_str(), "target");
        let debug = join(target.as_str(), "debug");
        let release = join(target.as_str(), "release");
        let ghost before = string_views(out@);
        push_candidate(&mut out, join(debug.as_str(), "mcp-linux-control"));
        push_candidate(&mut out, join(release.as_str(), "mcp-linux-control"));
        let ghost here = seq![
            path_join(path_join(path_join(cur@, "target"@), "debug"@), server_program()),
            path_join(path_join(path_join(cur@, "target"@), "release"@), server_program()),
        ];
        assert(string_views(out@) =~= before + here);
        match parent_of(cur.as_str()) {
            Some(q) => {
                assert(build_candidates(cur@) == here + build_candidates(q@));
                assert(before + (here + build_candidates(q@)) =~= (before + here) + build_candidates(q@));
                cur = q;
            },
            None => {
                assert(build_candidates(cur@) == here);
                assert(string_views(out@) =~= beside + build_candidates(exe@));
                return out;
            },
        }
    }
}

/// The name of a temporary file for this process: `mcp-linux-control-<pid>-<nanos>.<ext>`.
pub open spec fn spec_temp_file_name(pid: u32, nanos: u128, ext: Seq<char>) -> Seq<char> {
    "mcp-linux-control-"@ + decimal(pid as nat) + "-"@ + decimal(nanos as nat) + "."@ + ext
}

/// A temporary file path in `temp_dir`, named after the process and the time.
pub fn temp_file_path(temp_dir: &str, pid: u32, nanos: u128, ext: &str) -> (r: String)
    ensures
        r@ == path_join(temp_dir@, spec_temp_file_name(pid, nanos, ext@)),
{
    let mut name = String::from_str("mcp-linux-control-");
    push_decimal(&mut name, pid as u128);
    push_str(&mut name, "-");
    push_decimal(&mut name, nanos);
    push_str(&mut name, ".");
    push_str(&mut name, ext);
    join(temp_dir, name.as_str())
}

} // verus!
