//! Composition of the source-transfer invocation: a one-way mirroring,
//! compressed transfer over the encrypted channel, with exclusion rules
//! and a remote-side create-directory-then-receive command.

use vstd::prelude::*;

use crate::remote::Remote;
use crate::text::{dec_digits, u128_to_string};

verus! {

/// The transport argument handed to the transfer tool: the remote shell
/// with its port.
pub open spec fn ssh_transport_of(port: u16) -> Seq<char> {
    "ssh -p "@ + dec_digits(port as nat)
}

/// Renders the transport argument for `port`.
pub fn ssh_transport_arg(port: u16) -> (r: String)
    ensures
        r@ == ssh_transport_of(port),
{
    let mut s = String::from_str("ssh -p ");
    let num = u128_to_string(port as u128);
    s.append(num.as_str());
    s
}

/// The remote-side command that creates the target directory before
/// receiving, bundled into the same invocation to avoid a second round
/// trip.
pub open spec fn mkdir_receive_of(build_path: Seq<char>) -> Seq<char> {
    "mkdir -p "@ + build_path + " && rsync"@
}

/// The fixed head of the transfer argument list: archive mode, deletion
/// of remote files absent locally, compression, the transport, progress
/// reporting, and the always-excluded build-output and version-control
/// directories. These two defaults apply whatever the caller passes.
pub open spec fn sync_fixed_args_of(port: u16) -> Seq<Seq<char>> {
    seq![
        "-a"@,
        "--delete"@,
        "--compress"@,
        "-e"@,
        ssh_transport_of(port),
        "--info=progress2"@,
        "--exclude"@,
        "target"@,
        "--exclude"@,
        ".git"@,
    ]
}

/// One `--exclude` argument pair per user-supplied pattern, in order.
pub open spec fn exclude_args_of(excludes: Seq<Seq<char>>) -> Seq<Seq<char>>
    decreases excludes.len(),
{
    if excludes.len() == 0 {
        Seq::empty()
    } else {
        exclude_args_of(excludes.drop_last()) + seq!["--exclude"@, excludes.last()]
    }
}

/// The tail of the transfer argument list: the remote-side receive
/// command, the local source tree (with a trailing slash, so contents
/// are mirrored) and the `host:path` destination.
pub open spec fn sync_tail_args_of(
    host: Seq<char>,
    project_dir: Seq<char>,
    build_path: Seq<char>,
) -> Seq<Seq<char>> {
    seq![
        "--rsync-path"@,
        mkdir_receive_of(build_path),
        project_dir + "/"@,
        host + ":"@ + build_path,
    ]
}

/// The complete transfer argument list.
pub open spec fn sync_args_of(
    host: Seq<char>,
    port: u16,
    project_dir: Seq<char>,
    build_path: Seq<char>,
    excludes: Seq<Seq<char>>,
) -> Seq<Seq<char>> {
    sync_fixed_args_of(port) + exclude_args_of(excludes) + sync_tail_args_of(
        host,
        project_dir,
        build_path,
    )
}

/// Builds the argument list of the transfer that mirrors the local
/// project tree to the resolved remote path. The default exclusions
/// always apply; user-supplied patterns are appended, never replacing
/// them.
pub fn sync_args(
    remote: &Remote,
    project_dir: &str,
    build_path: &str,
    excludes: &Vec<String>,
) -> (r: Vec<String>)
    ensures
        r.deep_view() == sync_args_of(
            remote.host@,
            remote.ssh_port,
            project_dir@,
            build_path@,
            excludes.deep_view(),
        ),
{
    let mut v: Vec<String> = Vec::new();
    v.push(String::from_str("-a"));
    v.push(String::from_str("--delete"));
    v.push(String::from_str("--compress"));
    v.push(String::from_str("-e"));
    v.push(ssh_transport_arg(remote.ssh_port));
    v.push(String::from_str("--info=progress2"));
    v.push(String::from_str("--exclude"));
    v.push(String::from_str("target"));
    v.push(String::from_str("--exclude"));
    v.push(String::from_str(".git"));
    proof {
        assert(v.deep_view() =~= sync_fixed_args_of(remote.ssh_port) + exclude_args_of(
            excludes.deep_view().take(0),
        ));
    }
    let n = excludes.len();
    let mut i: usize = 0;
    while i < n
        invariant
            i <= n,
            n == excludes@.len(),
            excludes.deep_view().len() == n,
            v.deep_view() == sync_fixed_args_of(remote.ssh_port) + exclude_args_of(
                excludes.deep_view().take(i as int),
            ),
        decreases n - i,
    {
        v.push(String::from_str("--exclude"));
        v.push(excludes[i].clone());
        proof {
            let e = excludes.deep_view();
            let fixed = sync_fixed_args_of(remote.ssh_port);
            let pre = fixed + exclude_args_of(e.take(i as int));
            assert(v.deep_view() =~= pre + seq!["--exclude"@, e[i as int]]);
            assert(e.take(i + 1).drop_last() =~= e.take(i as int));
            assert(e.take(i + 1).last() == e[i as int]);
            assert(exclude_args_of(e.take(i + 1)) == exclude_args_of(e.take(i as int))
                + seq!["--exclude"@, e[i as int]]);
            assert(fixed + exclude_args_of(e.take(i + 1)) =~= pre + seq![
                "--exclude"@,
                e[i as int],
            ]);
        }
        i = i + 1;
    }
    let mut receive = String::from_str("mkdir -p ");
    receive.append(build_path);
    receive.append(" && rsync");
    let mut src_arg = String::from_str(project_dir);
    src_arg.append("/");
    let mut dst_arg = remote.host.clone();
    dst_arg.append(":");
    dst_arg.append(build_path);
    v.push(String::from_str("--rsync-path"));
    v.push(receive);
    v.push(src_arg);
    v.push(dst_arg);
    proof {
        let e = excludes.deep_view();
        assert(e.take(n as int) =~= e);
        assert(v.deep_view() =~= sync_args_of(
            remote.host@,
            remote.ssh_port,
            project_dir@,
            build_path@,
            e,
        ));
    }
    v
}

} // verus!
