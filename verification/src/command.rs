//! Composition of the remote shell invocation: the build command string,
//! the best-effort cleanup command, the argument lists handed to the
//! remote shell tool, and the scan of the cargo arguments for an explicit
//! manifest path.

use vstd::prelude::*;

use crate::remote::Remote;
use crate::text::{dec_digits, join_spaced, join_with_space, str_eq, str_starts_with,
    u128_to_string};

verus! {

/// The remote build command: fixed compiler exports, then the profile
/// source, then the change of directory, then the user environment
/// assignments prefixed to the cargo invocation. The order is fixed:
/// exports come before the profile source, and assignments closest to
/// the invocation take precedence per shell semantics.
pub open spec fn build_command_of(
    env_script: Seq<char>,
    build_path: Seq<char>,
    build_env: Seq<char>,
    cmd: Seq<Seq<char>>,
) -> Seq<char> {
    "export CC=gcc; export CXX=g++; source "@ + env_script + "; cd "@ + build_path + "; "@
        + build_env + " cargo "@ + join_spaced(cmd)
}

/// The full remote command: the build command, and, when a post-cargo
/// command was supplied, a marker message and that command appended with
/// `&&` so they only run on success.
pub open spec fn full_command_of(
    env_script: Seq<char>,
    build_path: Seq<char>,
    build_env: Seq<char>,
    cmd: Seq<Seq<char>>,
    post_cargo: Option<Seq<char>>,
) -> Seq<char> {
    match post_cargo {
        None => build_command_of(env_script, build_path, build_env, cmd),
        Some(p) => build_command_of(env_script, build_path, build_env, cmd)
            + " && echo Executing post-cargo command && "@ + p,
    }
}

/// Composes the single shell command executed on the remote host.
/// User-supplied arguments and environment assignments pass through
/// verbatim and unescaped; the caller answers for their shell-safety.
pub fn compose_remote_command(
    remote: &Remote,
    build_path: &str,
    build_env: &str,
    command: &Vec<String>,
    post_cargo: &Option<String>,
) -> (r: String)
    ensures
        r@ == full_command_of(
            remote.env@,
            build_path@,
            build_env@,
            command.deep_view(),
            post_cargo.deep_view(),
        ),
{
    let mut s = String::from_str("export CC=gcc; export CXX=g++; source ");
    s.append(remote.env.as_str());
    s.append("; cd ");
    s.append(build_path);
    s.append("; ");
    s.append(build_env);
    s.append(" cargo ");
    let joined = join_with_space(command);
    s.append(joined.as_str());
    match post_cargo {
        None => s,
        Some(p) => {
            s.append(" && echo Executing post-cargo command && ");
            s.append(p.as_str());
            s
        },
    }
}

/// The best-effort cleanup command for an ephemeral build directory:
/// clean the build output, then remove the directory tree.
pub open spec fn cleanup_command_of(build_path: Seq<char>) -> Seq<char> {
    "cd '"@ + build_path + "' && cargo clean && rm -r '"@ + build_path + "'"@
}

/// Composes the remote cleanup command for `build_path`.
pub fn cleanup_command(build_path: &str) -> (r: String)
    ensures
        r@ == cleanup_command_of(build_path@),
{
    let mut s = String::from_str("cd '");
    s.append(build_path);
    s.append("' && cargo clean && rm -r '");
    s.append(build_path);
    s.append("'");
    s
}

/// The argument list for the interactive remote execution: port, a forced
/// pseudo-terminal, the host, and the composed command.
pub open spec fn exec_shell_args_of(host: Seq<char>, port: u16, command: Seq<char>) -> Seq<
    Seq<char>,
> {
    seq!["-p"@, dec_digits(port as nat), "-t"@, host, command]
}

/// Builds the arguments handed to the remote shell tool for the build
/// command.
pub fn exec_shell_args(remote: &Remote, command: &str) -> (r: Vec<String>)
    ensures
        r.deep_view() == exec_shell_args_of(remote.host@, remote.ssh_port, command@),
{
    let mut v: Vec<String> = Vec::new();
    v.push(String::from_str("-p"));
    v.push(u128_to_string(remote.ssh_port as u128));
    v.push(String::from_str("-t"));
    v.push(remote.host.clone());
    v.push(String::from_str(command));
    proof {
        assert(v.deep_view() =~= exec_shell_args_of(remote.host@, remote.ssh_port, command@));
    }
    v
}

/// The argument list for the best-effort cleanup invocation: port, host
/// and the cleanup command, with no pseudo-terminal.
pub open spec fn cleanup_shell_args_of(host: Seq<char>, port: u16, build_path: Seq<char>) -> Seq<
    Seq<char>,
> {
    seq!["-p"@, dec_digits(port as nat), host, cleanup_command_of(build_path)]
}

/// Builds the arguments handed to the remote shell tool for the cleanup
/// command.
pub fn cleanup_shell_args(remote: &Remote, build_path: &str) -> (r: Vec<String>)
    ensures
        r.deep_view() == cleanup_shell_args_of(remote.host@, remote.ssh_port, build_path@),
{
    let mut v: Vec<String> = Vec::new();
    v.push(String::from_str("-p"));
    v.push(u128_to_string(remote.ssh_port as u128));
    v.push(remote.host.clone());
    v.push(cleanup_command(build_path));
    proof {
        assert(v.deep_view() =~= cleanup_shell_args_of(
            remote.host@,
            remote.ssh_port,
            build_path@,
        ));
    }
    v
}

/// The manifest path named in the cargo arguments: the argument after the
/// first `--manifest-path`, or the remainder of the first argument that
/// begins with `--manifest-path=`; `None` when neither occurs.
pub open spec fn manifest_path_spec(args: Seq<Seq<char>>) -> Option<Seq<char>>
    decreases args.len(),
{
    if args.len() == 0 {
        None
    } else if args[0] == "--manifest-path"@ {
        if args.len() >= 2 {
            Some(args[1])
        } else {
            None
        }
    } else if ("--manifest-path="@).is_prefix_of(args[0]) {
        Some(args[0].skip("--manifest-path="@.len() as int))
    } else {
        manifest_path_spec(args.drop_first())
    }
}

/// Scans the cargo arguments for an explicitly named manifest path.
pub fn extract_manifest_path(args: &Vec<String>) -> (r: Option<String>)
    ensures
        match r {
            Some(p) => manifest_path_spec(args.deep_view()) == Some(p@),
            None => manifest_path_spec(args.deep_view()) is None,
        },
{
    let n = args.len();
    let mut i: usize = 0;
    proof {
        assert(args.deep_view().skip(0) =~= args.deep_view());
    }
    while i < n
        invariant
            i <= n,
            n == args@.len(),
            args.deep_view().len() == n,
            manifest_path_spec(args.deep_view()) == manifest_path_spec(
                args.deep_view().skip(i as int),
            ),
        decreases n - i,
    {
        proof {
            assert(args.deep_view().skip(i as int)[0] == args.deep_view()[i as int]);
        }
        if str_eq(args[i].as_str(), "--manifest-path") {
            if i + 1 < n {
                proof {
                    assert(args.deep_view().skip(i as int)[1] == args.deep_view()[i + 1]);
                }
                return Some(args[i + 1].clone());
            } else {
                proof {
                    assert(args.deep_view().skip(i as int).len() == 1);
                }
                return None;
            }
        }
        let a = args[i].as_str();
        if str_starts_with(a, "--manifest-path=") {
            let plen = "--manifest-path=".unicode_len();
            let alen = a.unicode_len();
            let rest = a.substring_char(plen, alen);
            proof {
                assert(rest@ =~= a@.skip("--manifest-path="@.len() as int));
            }
            return Some(String::from_str(rest));
        }
        proof {
            assert(args.deep_view().skip(i as int).drop_first() =~= args.deep_view().skip(
                i + 1,
            ));
        }
        i = i + 1;
    }
    proof {
        assert(args.deep_view().skip(n as int) =~= Seq::<Seq<char>>::empty());
    }
    None
}

} // verus!
