//! Resolution of the remote working directory.
//!
//! Three addressing strategies exist: mirror the local path, use a
//! timestamp-seeded temporary directory, or use a persistent per-project
//! directory derived from a stable hash of the project path.

use std::collections::hash_map::DefaultHasher;
use std::hash::Hasher;
use std::time::{SystemTime, UNIX_EPOCH};
use vstd::prelude::*;
use vstd::std_specs::hash::DefaultHasherAdditionalSpecFns;
use vstd::utf8::encode_utf8;

use crate::remote::Remote;
use crate::text::{dec_digits, lemma_dec_digits_injective, str_eq, u128_to_string};
use crate::ConfigError;

verus! {

/// How the remote working directory is addressed.
#[derive(Debug, Clone)]
pub enum RemotePathBehavior {
    /// Mirror the local directory structure on the remote server.
    Mirror,
    /// Use a temporary directory on the remote server that is cleaned up
    /// afterwards.
    Tmp,
    /// Use a unique persistent directory in the remote user's home
    /// directory for each project.
    Unique,
}

/// `p` with every trailing `/` removed.
pub open spec fn trim_slashes(p: Seq<char>) -> Seq<char>
    decreases p.len(),
{
    if p.len() > 0 && p.last() == '/' {
        trim_slashes(p.drop_last())
    } else {
        p
    }
}

/// The suffix of `p` after its last `/`; all of `p` when there is none.
pub open spec fn after_last_slash(p: Seq<char>) -> Seq<char>
    decreases p.len(),
{
    if p.len() == 0 {
        p
    } else if p.last() == '/' {
        Seq::empty()
    } else {
        after_last_slash(p.drop_last()).push(p.last())
    }
}

/// The directory name of the path `p`: its last non-empty component,
/// ignoring trailing slashes. `None` when no real component remains
/// (empty path, a bare root, `.` or `..`).
pub open spec fn dir_name_spec(p: Seq<char>) -> Option<Seq<char>> {
    let name = after_last_slash(trim_slashes(p));
    if name.len() == 0 || name == "."@ || name == ".."@ {
        None
    } else {
        Some(name)
    }
}

proof fn lemma_trim_slashes_at(s: Seq<char>, end: int)
    requires
        0 <= end <= s.len(),
        forall|k: int| end <= k < s.len() ==> s[k] == '/',
        end == 0 || s[end - 1] != '/',
    ensures
        trim_slashes(s) == s.take(end),
    decreases s.len(),
{
    if s.len() == end {
        assert(trim_slashes(s) =~= s.take(end));
    } else {
        assert(s.last() == '/');
        lemma_trim_slashes_at(s.drop_last(), end);
        assert(s.drop_last().take(end) =~= s.take(end));
    }
}

proof fn lemma_after_last_slash_at(s: Seq<char>, start: int)
    requires
        0 <= start <= s.len(),
        forall|k: int| start <= k < s.len() ==> s[k] != '/',
        start == 0 || s[start - 1] == '/',
    ensures
        after_last_slash(s) == s.subrange(start, s.len() as int),
    decreases s.len(),
{
    if s.len() == start {
        assert(after_last_slash(s) =~= s.subrange(start, s.len() as int));
    } else {
        assert(s.last() != '/');
        lemma_after_last_slash_at(s.drop_last(), start);
        assert(s.drop_last().subrange(start, s.len() - 1) =~= s.subrange(start, s.len() - 1));
        assert(after_last_slash(s) =~= s.subrange(start, s.len() as int));
    }
}

/// The directory name of `path`, as `dir_name_spec` describes.
pub fn dir_name(path: &str) -> (r: Option<String>)
    ensures
        match r {
            Some(name) => dir_name_spec(path@) == Some(name@),
            None => dir_name_spec(path@) is None,
        },
{
    let n = path.unicode_len();
    let mut end: usize = n;
    while end > 0 && path.get_char(end - 1) == '/'
        invariant
            end <= n,
            n == path@.len(),
            forall|k: int| end <= k < n ==> path@[k] == '/',
        decreases end,
    {
        end = end - 1;
    }
    proof {
        lemma_trim_slashes_at(path@, end as int);
    }
    let mut start: usize = end;
    while start > 0 && path.get_char(start - 1) != '/'
        invariant
            start <= end,
            end <= n,
            n == path@.len(),
            forall|k: int| start <= k < end ==> path@[k] != '/',
        decreases start,
    {
        start = start - 1;
    }
    proof {
        let t = path@.take(end as int);
        lemma_after_last_slash_at(t, start as int);
        assert(t.subrange(start as int, t.len() as int) =~= path@.subrange(
            start as int,
            end as int,
        ));
    }
    let name = path.substring_char(start, end);
    if name.unicode_len() == 0 || str_eq(name, ".") || str_eq(name, "..") {
        return None;
    }
    Some(String::from_str(name))
}

/// The stable 64-bit identifier of the path `p`: what the standard
/// hasher computes over its UTF-8 bytes. A function of the path alone,
/// so it is stable across runs and processes.
pub open spec fn path_uid_of(p: Seq<char>) -> u64 {
    DefaultHasher::spec_finish(seq![encode_utf8(p)])
}

/// Stable, non-cryptographic hash of the project path, used to address
/// persistent per-project build directories.
pub fn uid_from_path(path: &str) -> (r: u64)
    ensures
        r == path_uid_of(path@),
{
    let mut hasher = DefaultHasher::new();
    hasher.write(path.as_bytes());
    proof {
        assert(hasher@ =~= seq![encode_utf8(path@)]);
    }
    hasher.finish()
}

/// The remote path the ephemeral strategy resolves to for a project named
/// `name` at wall-clock nanosecond `nanos`.
pub open spec fn ephemeral_path_of(name: Seq<char>, nanos: nat) -> Seq<char> {
    "/tmp/crunch-"@ + name + "-"@ + dec_digits(nanos)
}

/// The remote path the persistent strategy resolves to: under `base`,
/// the project name suffixed with the stable path identifier `uid`.
pub open spec fn persistent_path_of(base: Seq<char>, name: Seq<char>, uid: u64) -> Seq<char> {
    base + "/"@ + name + "-"@ + dec_digits(uid as nat)
}

/// Resolves the ephemeral remote path for `project_dir`, seeded by the
/// caller-supplied wall-clock nanosecond count.
pub fn ephemeral_build_path(project_dir: &str, nanos: u128) -> (r: Result<String, ConfigError>)
    ensures
        (r is Ok) == (dir_name_spec(project_dir@) is Some),
        r matches Ok(p) ==> p@ == ephemeral_path_of(
            dir_name_spec(project_dir@)->Some_0,
            nanos as nat,
        ),
        r matches Err(e) ==> e is NoProjectName,
{
    match dir_name(project_dir) {
        None => Err(ConfigError::NoProjectName),
        Some(name) => {
            let mut s = String::from_str("/tmp/crunch-");
            s.append(name.as_str());
            s.append("-");
            let num = u128_to_string(nanos);
            s.append(num.as_str());
            Ok(s)
        },
    }
}

/// Resolves the persistent remote path for `project_dir` under the
/// remote's build directory.
pub fn persistent_build_path(project_dir: &str, remote: &Remote) -> (r: Result<
    String,
    ConfigError,
>)
    ensures
        (r is Ok) == (dir_name_spec(project_dir@) is Some),
        r matches Ok(p) ==> p@ == persistent_path_of(
            remote.temp_dir@,
            dir_name_spec(project_dir@)->Some_0,
            path_uid_of(project_dir@),
        ),
        r matches Err(e) ==> e is NoProjectName,
{
    match dir_name(project_dir) {
        None => Err(ConfigError::NoProjectName),
        Some(name) => {
            let uid = uid_from_path(project_dir);
            let mut s = remote.temp_dir.clone();
            s.append("/");
            s.append(name.as_str());
            s.append("-");
            let num = u128_to_string(uid as u128);
            s.append(num.as_str());
            Ok(s)
        },
    }
}

/// Relies on `std::time::SystemTime::now` and
/// `SystemTime::duration_since(UNIX_EPOCH)`: the wall-clock time as
/// nanoseconds since the epoch, or zero on a clock set before the epoch.
/// Nothing can be promised of the clock's value.
#[verifier::external_body]
fn unix_nanos() -> u128 {
    SystemTime::now().duration_since(UNIX_EPOCH).unwrap_or_default().as_nanos()
}

/// Resolves the remote working directory for the chosen strategy.
///
/// The mirror strategy always succeeds and returns the project path
/// itself; the other two fail exactly when the project path has no
/// derivable directory name. The ephemeral strategy seeds the path with
/// the wall clock, so only its shape is known here; `ephemeral_build_path`
/// states the exact path for a given seed.
pub fn resolve_build_path(
    behavior: &RemotePathBehavior,
    project_dir: &str,
    remote: &Remote,
) -> (r: Result<String, ConfigError>)
    ensures
        behavior is Mirror ==> (r matches Ok(p) && p@ == project_dir@),
        !(behavior is Mirror) ==> (r is Ok) == (dir_name_spec(project_dir@) is Some),
        behavior is Unique ==> (r matches Ok(p) ==> p@ == persistent_path_of(
            remote.temp_dir@,
            dir_name_spec(project_dir@)->Some_0,
            path_uid_of(project_dir@),
        )),
        behavior is Tmp ==> (r matches Ok(p) ==> exists|ns: nat|
            p@ == ephemeral_path_of(dir_name_spec(project_dir@)->Some_0, ns)),
        r matches Err(e) ==> e is NoProjectName,
{
    match behavior {
        RemotePathBehavior::Mirror => Ok(project_dir.to_owned()),
        RemotePathBehavior::Tmp => {
            let nanos = unix_nanos();
            let r = ephemeral_build_path(project_dir, nanos);
            proof {
                if r is Ok {
                    assert(r->Ok_0@ == ephemeral_path_of(
                        dir_name_spec(project_dir@)->Some_0,
                        nanos as nat,
                    ));
                }
            }
            r
        },
        RemotePathBehavior::Unique => persistent_build_path(project_dir, remote),
    }
}

/// Law: the persistent strategy is deterministic. Repeated resolutions
/// for the same project path yield the same remote path.
pub proof fn lemma_persistent_path_repeatable(base: Seq<char>, p1: Seq<char>, p2: Seq<char>)
    requires
        p1 == p2,
        dir_name_spec(p1) is Some,
    ensures
        persistent_path_of(base, dir_name_spec(p1)->Some_0, path_uid_of(p1))
            == persistent_path_of(base, dir_name_spec(p2)->Some_0, path_uid_of(p2)),
{
}

/// Law: two ephemeral resolutions for the same project at different
/// wall-clock nanoseconds yield different remote paths.
pub proof fn lemma_ephemeral_path_distinct(name: Seq<char>, n1: nat, n2: nat)
    requires
        n1 != n2,
    ensures
        ephemeral_path_of(name, n1) != ephemeral_path_of(name, n2),
{
    let prefix = "/tmp/crunch-"@ + name + "-"@;
    if ephemeral_path_of(name, n1) == ephemeral_path_of(name, n2) {
        assert(prefix + dec_digits(n1) == prefix + dec_digits(n2));
        assert((prefix + dec_digits(n1)).len() == prefix.len() + dec_digits(n1).len());
        assert((prefix + dec_digits(n2)).len() == prefix.len() + dec_digits(n2).len());
        assert(dec_digits(n1).len() == dec_digits(n2).len());
        assert forall|i: int| 0 <= i < dec_digits(n1).len() implies dec_digits(n1)[i]
            == dec_digits(n2)[i] by {
            assert((prefix + dec_digits(n1))[prefix.len() + i] == dec_digits(n1)[i]);
            assert((prefix + dec_digits(n2))[prefix.len() + i] == dec_digits(n2)[i]);
        }
        assert(dec_digits(n1) =~= dec_digits(n2));
        lemma_dec_digits_injective(n1, n2);
        assert(false);
    }
}

} // verus!
