//! Artifact retrieval: parsing `source:destination` pairs, composing the
//! per-pair pull transfers, and aggregating the per-pair outcomes into a
//! run report.
//!
//! The caller launches one transfer per pair, waits for all of them
//! regardless of individual failures, and hands the outcomes back; the
//! report then holds one message per failed pair.

use vstd::prelude::*;

use crate::remote::Remote;
use crate::sync::{ssh_transport_arg, ssh_transport_of};
use crate::{ConfigError, EXIT_RETRIEVAL_FAILED};

verus! {

/// A remote-source/local-destination mapping for post-build artifact
/// collection.
#[derive(Debug)]
pub struct RetrievalPair {
    /// Path relative to the remote working directory.
    pub source: String,
    /// Local directory the artifact is copied into.
    pub dest: String,
}

/// Whether `source` and `dest` are what splitting `entry` at its first
/// `:` yields.
pub open spec fn splits_entry(entry: Seq<char>, source: Seq<char>, dest: Seq<char>) -> bool {
    entry == source + seq![':'] + dest && !source.contains(':')
}

/// Parses the `source:destination` entries. An entry without a `:` is a
/// fatal configuration error, reported before any transfer is attempted,
/// and the first such entry is the one reported; parsing succeeds exactly
/// when every entry has one.
pub fn parse_copy_back(entries: &Vec<String>) -> (r: Result<Vec<RetrievalPair>, ConfigError>)
    ensures
        (r is Ok) == (forall|i: int|
            0 <= i < entries.deep_view().len() ==> entries.deep_view()[i].contains(':')),
        r matches Ok(pairs) ==> {
            &&& pairs@.len() == entries@.len()
            &&& forall|i: int|
                0 <= i < pairs@.len() ==> splits_entry(
                    entries.deep_view()[i],
                    pairs@[i].source@,
                    pairs@[i].dest@,
                )
        },
        r matches Err(e) ==> (e matches ConfigError::InvalidCopyBack { entry } && exists|i: int|
            0 <= i < entries.deep_view().len() && entries.deep_view()[i] == entry@
                && !entry@.contains(':') && (forall|j: int|
                0 <= j < i ==> entries.deep_view()[j].contains(':'))),
{
    let n = entries.len();
    let mut pairs: Vec<RetrievalPair> = Vec::new();
    let mut i: usize = 0;
    while i < n
        invariant
            i <= n,
            n == entries@.len(),
            entries.deep_view().len() == n,
            pairs@.len() == i,
            forall|j: int|
                0 <= j < i ==> splits_entry(
                    entries.deep_view()[j],
                    pairs@[j].source@,
                    pairs@[j].dest@,
                ),
            forall|j: int| 0 <= j < i ==> entries.deep_view()[j].contains(':'),
        decreases n - i,
    {
        match crate::text::split_once_at(entries[i].as_str(), ':') {
            Some(parts) => {
                proof {
                    let entry = entries.deep_view()[i as int];
                    assert(entry[parts.0@.len() as int] == ':');
                    assert(entry.contains(':'));
                }
                pairs.push(RetrievalPair { source: parts.0, dest: parts.1 });
            },
            None => {
                let entry = entries[i].clone();
                proof {
                    let k = i as int;
                    assert(entries.deep_view()[k] == entry@);
                    assert(!entry@.contains(':'));
                    assert(forall|j: int| 0 <= j < k ==> entries.deep_view()[j].contains(':'));
                }
                return Err(ConfigError::InvalidCopyBack { entry });
            },
        }
        i = i + 1;
    }
    Ok(pairs)
}

/// The argument list of the pull transfer for one pair: compressed, over
/// the encrypted channel, from `host:buildpath/source` into `dest/`.
pub open spec fn pull_args_of(
    host: Seq<char>,
    port: u16,
    build_path: Seq<char>,
    source: Seq<char>,
    dest: Seq<char>,
) -> Seq<Seq<char>> {
    seq![
        "-a"@,
        "--compress"@,
        "-e"@,
        ssh_transport_of(port),
        "--info=progress2"@,
        host + ":"@ + build_path + "/"@ + source,
        dest + "/"@,
    ]
}

/// Builds the argument list of the pull transfer for `pair`.
pub fn pull_args(remote: &Remote, build_path: &str, pair: &RetrievalPair) -> (r: Vec<String>)
    ensures
        r.deep_view() == pull_args_of(
            remote.host@,
            remote.ssh_port,
            build_path@,
            pair.source@,
            pair.dest@,
        ),
{
    let mut v: Vec<String> = Vec::new();
    v.push(String::from_str("-a"));
    v.push(String::from_str("--compress"));
    v.push(String::from_str("-e"));
    v.push(ssh_transport_arg(remote.ssh_port));
    v.push(String::from_str("--info=progress2"));
    let mut src_arg = remote.host.clone();
    src_arg.append(":");
    src_arg.append(build_path);
    src_arg.append("/");
    src_arg.append(pair.source.as_str());
    v.push(src_arg);
    let mut dst_arg = pair.dest.clone();
    dst_arg.append("/");
    v.push(dst_arg);
    proof {
        assert(v.deep_view() =~= pull_args_of(
            remote.host@,
            remote.ssh_port,
            build_path@,
            pair.source@,
            pair.dest@,
        ));
    }
    v
}

/// Builds one pull invocation per pair, in order: every pair is
/// attempted, and an empty pair list yields no transfer at all.
pub fn retrieval_commands(remote: &Remote, build_path: &str, pairs: &Vec<RetrievalPair>) -> (r:
    Vec<Vec<String>>)
    ensures
        r@.len() == pairs@.len(),
        forall|i: int|
            0 <= i < r@.len() ==> r@[i].deep_view() == pull_args_of(
                remote.host@,
                remote.ssh_port,
                build_path@,
                pairs@[i].source@,
                pairs@[i].dest@,
            ),
{
    let n = pairs.len();
    let mut r: Vec<Vec<String>> = Vec::new();
    let mut i: usize = 0;
    while i < n
        invariant
            i <= n,
            n == pairs@.len(),
            r@.len() == i,
            forall|j: int|
                0 <= j < i ==> r@[j].deep_view() == pull_args_of(
                    remote.host@,
                    remote.ssh_port,
                    build_path@,
                    pairs@[j].source@,
                    pairs@[j].dest@,
                ),
        decreases n - i,
    {
        r.push(pull_args(remote, build_path, &pairs[i]));
        i = i + 1;
    }
    r
}

/// The outcome of one pull transfer, as the caller observed it.
#[derive(Debug)]
pub enum TransferOutcome {
    /// The transfer tool ran and exited successfully.
    Success,
    /// The transfer tool ran but exited with a failure; `detail` renders
    /// its exit status.
    ToolFailed { detail: String },
    /// The transfer tool could not be invoked at all; `detail` renders
    /// the launch error.
    LaunchFailed { detail: String },
}

/// The failure message recorded for a failed pair.
pub open spec fn failure_message_of(
    source: Seq<char>,
    dest: Seq<char>,
    outcome: TransferOutcome,
) -> Seq<char> {
    match outcome {
        TransferOutcome::Success => Seq::empty(),
        TransferOutcome::ToolFailed { detail } => "Rsync failed for '"@ + source + "' to '"@
            + dest + "' with exit code: "@ + detail@,
        TransferOutcome::LaunchFailed { detail } => "Failed to transfer '"@ + source + "' to '"@
            + dest + "' (error: "@ + detail@ + ")"@,
    }
}

/// Renders the failure message for one pair; `None` when it succeeded.
pub fn retrieval_failure_message(pair: &RetrievalPair, outcome: &TransferOutcome) -> (r: Option<
    String,
>)
    ensures
        match r {
            None => outcome is Success,
            Some(m) => !(outcome is Success) && m@ == failure_message_of(
                pair.source@,
                pair.dest@,
                *outcome,
            ),
        },
{
    match outcome {
        TransferOutcome::Success => None,
        TransferOutcome::ToolFailed { detail } => {
            let mut m = String::from_str("Rsync failed for '");
            m.append(pair.source.as_str());
            m.append("' to '");
            m.append(pair.dest.as_str());
            m.append("' with exit code: ");
            m.append(detail.as_str());
            Some(m)
        },
        TransferOutcome::LaunchFailed { detail } => {
            let mut m = String::from_str("Failed to transfer '");
            m.append(pair.source.as_str());
            m.append("' to '");
            m.append(pair.dest.as_str());
            m.append("' (error: ");
            m.append(detail.as_str());
            m.append(")");
            Some(m)
        },
    }
}

/// The views of the pairs, source and destination.
pub open spec fn pair_views(pairs: Seq<RetrievalPair>) -> Seq<(Seq<char>, Seq<char>)> {
    pairs.map_values(|p: RetrievalPair| (p.source@, p.dest@))
}

/// The failure messages of the failed pairs, in pair order.
pub open spec fn failures_of(
    pairs: Seq<(Seq<char>, Seq<char>)>,
    outcomes: Seq<TransferOutcome>,
) -> Seq<Seq<char>>
    recommends
        pairs.len() == outcomes.len(),
    decreases outcomes.len(),
{
    if outcomes.len() == 0 || pairs.len() != outcomes.len() {
        Seq::empty()
    } else {
        let init = failures_of(pairs.drop_last(), outcomes.drop_last());
        if outcomes.last() is Success {
            init
        } else {
            init.push(failure_message_of(pairs.last().0, pairs.last().1, outcomes.last()))
        }
    }
}

/// How many outcomes are failures.
pub open spec fn count_failures(outcomes: Seq<TransferOutcome>) -> nat
    decreases outcomes.len(),
{
    if outcomes.len() == 0 {
        0
    } else {
        count_failures(outcomes.drop_last()) + if outcomes.last() is Success {
            0nat
        } else {
            1nat
        }
    }
}

/// The aggregated outcome of all retrieval tasks of one invocation: the
/// collected failure messages, empty on overall success.
pub struct RunReport {
    /// One message per failed pair, in pair order.
    pub failures: Vec<String>,
}

impl RunReport {
    /// Whether every retrieval succeeded.
    pub fn is_success(&self) -> (r: bool)
        ensures
            r == (self.failures@.len() == 0),
    {
        self.failures.len() == 0
    }

    /// The exit status the run report maps to: success, or the distinct
    /// retrieval-failure code when any pair failed.
    pub fn exit_code(&self) -> (r: i32)
        ensures
            self.failures@.len() == 0 ==> r == 0,
            self.failures@.len() > 0 ==> r == EXIT_RETRIEVAL_FAILED,
    {
        if self.failures.len() == 0 {
            0
        } else {
            EXIT_RETRIEVAL_FAILED
        }
    }
}

/// Aggregates the per-pair outcomes into a run report, one failure
/// message per failed pair, in pair order.
pub fn collect_failures(pairs: &Vec<RetrievalPair>, outcomes: &Vec<TransferOutcome>) -> (r:
    RunReport)
    requires
        pairs@.len() == outcomes@.len(),
    ensures
        r.failures.deep_view() == failures_of(pair_views(pairs@), outcomes@),
{
    let n = pairs.len();
    let mut failures: Vec<String> = Vec::new();
    let mut i: usize = 0;
    proof {
        assert(pair_views(pairs@.take(0)) =~= pair_views(pairs@).take(0));
        assert(failures.deep_view() =~= failures_of(pair_views(pairs@).take(0), outcomes@.take(0)));
    }
    while i < n
        invariant
            i <= n,
            n == pairs@.len(),
            n == outcomes@.len(),
            failures.deep_view() == failures_of(
                pair_views(pairs@).take(i as int),
                outcomes@.take(i as int),
            ),
        decreases n - i,
    {
        match retrieval_failure_message(&pairs[i], &outcomes[i]) {
            None => {},
            Some(m) => {
                failures.push(m);
            },
        }
        proof {
            let pv = pair_views(pairs@);
            assert(pv.take(i + 1).drop_last() =~= pv.take(i as int));
            assert(outcomes@.take(i + 1).drop_last() =~= outcomes@.take(i as int));
            assert(pv.take(i + 1).last() == pv[i as int]);
            assert(outcomes@.take(i + 1).last() == outcomes@[i as int]);
            assert(failures.deep_view() =~= failures_of(pv.take(i + 1), outcomes@.take(i + 1)));
        }
        i = i + 1;
    }
    proof {
        assert(pair_views(pairs@).take(n as int) =~= pair_views(pairs@));
        assert(outcomes@.take(n as int) =~= outcomes@);
    }
    RunReport { failures }
}

/// Law: all pairs are attempted and the report holds exactly one entry
/// per failed outcome; it is empty exactly when every outcome succeeded.
pub proof fn lemma_report_counts(
    pairs: Seq<(Seq<char>, Seq<char>)>,
    outcomes: Seq<TransferOutcome>,
)
    requires
        pairs.len() == outcomes.len(),
    ensures
        failures_of(pairs, outcomes).len() == count_failures(outcomes),
        (count_failures(outcomes) == 0) == (forall|i: int|
            0 <= i < outcomes.len() ==> outcomes[i] is Success),
    decreases outcomes.len(),
{
    if outcomes.len() == 0 {
    } else {
        lemma_report_counts(pairs.drop_last(), outcomes.drop_last());
        assert(forall|i: int|
            0 <= i < outcomes.len() - 1 ==> outcomes.drop_last()[i] == outcomes[i]);
        if count_failures(outcomes) == 0 {
            assert(outcomes.last() is Success);
            assert(forall|i: int| 0 <= i < outcomes.len() ==> outcomes[i] is Success);
        } else {
            if forall|i: int| 0 <= i < outcomes.len() ==> outcomes[i] is Success {
                assert(outcomes.last() is Success);
                assert(forall|i: int|
                    0 <= i < outcomes.len() - 1 ==> outcomes.drop_last()[i] is Success);
                assert(count_failures(outcomes) == 0);
            }
        }
    }
}

} // verus!
