//! Where the sockets live, from the environment the caller reads.

use vstd::prelude::*;
use vstd::string::*;
use crate::text::{chars_of, dec, push_dec};

verus! {

/// `PathBuf::join` of a path and one component: an absolute component
/// replaces the path; otherwise a separator is put between them unless the
/// path is empty or already ends with one.
pub open spec fn spec_join(dir: Seq<char>, name: Seq<char>) -> Seq<char> {
    if name.len() > 0 && name[0] == '/' {
        name
    } else if dir.len() == 0 {
        name
    } else if dir.last() == '/' {
        dir + name
    } else {
        dir + "/"@ + name
    }
}

/// Joins a path and a component.
pub fn path_join(dir: &str, name: &str) -> (p: String)
    ensures
        p@ == spec_join(dir@, name@),
{
    let d = chars_of(dir);
    let n = chars_of(name);
    if n.len() > 0 && n[0] == '/' {
        return name.to_owned();
    }
    if d.len() == 0 {
        return name.to_owned();
    }
    let mut p = dir.to_owned();
    if d[d.len() - 1] != '/' {
        p.append("/");
    }
    p.append(name);
    p
}

/// The directory for runtime files: `XDG_RUNTIME_DIR`, else `.phantom` in
/// the home directory (`/tmp` when that is unknown).
pub open spec fn spec_runtime_dir(xdg: Option<Seq<char>>, home: Option<Seq<char>>) -> Seq<char> {
    match xdg {
        Some(x) => x,
        None => spec_join(
            match home {
                Some(h) => h,
                None => "/tmp"@,
            },
            ".phantom"@,
        ),
    }
}

/// The directory for runtime files, given `XDG_RUNTIME_DIR` and `HOME`.
pub fn runtime_dir(xdg: Option<&str>, home: Option<&str>) -> (d: String)
    ensures
        d@ == spec_runtime_dir(
            match xdg {
                Some(x) => Some(x@),
                None => None,
            },
            match home {
                Some(h) => Some(h@),
                None => None,
            },
        ),
{
    match xdg {
        Some(x) => x.to_owned(),
        None => match home {
            Some(h) => path_join(h, ".phantom"),
            None => path_join("/tmp", ".phantom"),
        },
    }
}

/// The daemon's socket: the path set on the command line, else
/// `phantom.sock` in the runtime directory.
pub fn daemon_socket_path(custom: Option<&str>, xdg: Option<&str>, home: Option<&str>) -> (p: String)
    ensures
        match custom {
            Some(c) => p@ == c@,
            None => p@ == spec_join(
                spec_runtime_dir(
                    match xdg {
                        Some(x) => Some(x@),
                        None => None,
                    },
                    match home {
                        Some(h) => Some(h@),
                        None => None,
                    },
                ),
                "phantom.sock"@,
            ),
        },
{
    match custom {
        Some(c) => c.to_owned(),
        None => {
            let d = runtime_dir(xdg, home);
            path_join(d.as_str(), "phantom.sock")
        },
    }
}

/// The observer socket of the agent server with process id `pid`:
/// `phantom-mcp-PID.sock` in the runtime directory.
pub fn default_socket_path(xdg: Option<&str>, home: Option<&str>, pid: u32) -> (p: String)
    ensures
        p@ == spec_join(
            spec_runtime_dir(
                match xdg {
                    Some(x) => Some(x@),
                    None => None,
                },
                match home {
                    Some(h) => Some(h@),
                    None => None,
                },
            ),
            "phantom-mcp-"@ + dec(pid as nat) + ".sock"@,
        ),
{
    let d = runtime_dir(xdg, home);
    let mut name = String::from_str("phantom-mcp-");
    push_dec(&mut name, pid as u64);
    name.append(".sock");
    path_join(d.as_str(), name.as_str())
}

/// The observer socket: `PHANTOM_MCP_SOCKET` when it is set and not empty,
/// else the default path.
pub fn resolve_socket_path(over: Option<&str>, xdg: Option<&str>, home: Option<&str>, pid: u32) -> (p: String)
    ensures
        match over {
            Some(o) if o@.len() > 0 => p@ == o@,
            _ => {
                p@ == spec_join(
                    spec_runtime_dir(
                        match xdg {
                            Some(x) => Some(x@),
                            None => None,
                        },
                        match home {
                            Some(h) => Some(h@),
                            None => None,
                        },
                    ),
                    "phantom-mcp-"@ + dec(pid as nat) + ".sock"@,
                )
            },
        },
{
    match over {
        Some(o) => if o.unicode_len() > 0 {
            return o.to_owned();
        },
        None => {},
    }
    default_socket_path(xdg, home, pid)
}

} // verus!
