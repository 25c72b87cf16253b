use crunch::remote::Remote;
use crunch::retrieve::{
    collect_failures, parse_copy_back, pull_args, retrieval_commands, retrieval_failure_message,
    RetrievalPair, TransferOutcome,
};
use crunch::sync::sync_args;
use crunch::EXIT_RETRIEVAL_FAILED;

#[test]
fn parse_copy_back_splits_at_first_colon() {
    let entries = vec![
        "./target/release/bin:.".to_string(),
        "*.bin:~/my-bins".to_string(),
        "a:b:c".to_string(),
        ":".to_string(),
    ];
    let pairs = parse_copy_back(&entries).ok().unwrap();
    assert_eq!(pairs.len(), 4);
    assert_eq!(pairs[0].source, "./target/release/bin");
    assert_eq!(pairs[0].dest, ".");
    assert_eq!(pairs[1].source, "*.bin");
    assert_eq!(pairs[1].dest, "~/my-bins");
    assert_eq!(pairs[2].source, "a");
    assert_eq!(pairs[2].dest, "b:c");
    assert_eq!(pairs[3].source, "");
    assert_eq!(pairs[3].dest, "");
}

#[test]
fn parse_copy_back_rejects_an_entry_without_colon() {
    let entries = vec!["good:.".to_string(), "bad-entry".to_string()];
    let err = parse_copy_back(&entries).err().unwrap();
    assert_eq!(
        err.message(),
        "Invalid format for --copy-back entry: bad-entry"
    );
}

#[test]
fn parse_copy_back_reports_the_first_entry_without_colon() {
    let entries = vec![
        "good:.".to_string(),
        "first-bad".to_string(),
        "second-bad".to_string(),
    ];
    let err = parse_copy_back(&entries).err().unwrap();
    assert_eq!(
        err.message(),
        "Invalid format for --copy-back entry: first-bad"
    );
}

#[test]
fn empty_pair_list_means_no_transfers_and_success() {
    let remote = Remote::standard();
    let pairs: Vec<RetrievalPair> = Vec::new();
    let commands = retrieval_commands(&remote, "/tmp/build", &pairs);
    assert_eq!(commands.len(), 0);
    let outcomes: Vec<TransferOutcome> = Vec::new();
    let report = collect_failures(&pairs, &outcomes);
    assert!(report.is_success());
    assert_eq!(report.exit_code(), 0);
}

#[test]
fn report_holds_one_entry_per_failure_and_all_pairs_are_attempted() {
    let remote = Remote::standard();
    let entries = vec!["a:.".to_string(), "b:out".to_string(), "c:.".to_string()];
    let pairs = parse_copy_back(&entries).ok().unwrap();
    let commands = retrieval_commands(&remote, "/tmp/build", &pairs);
    assert_eq!(commands.len(), 3);
    let outcomes = vec![
        TransferOutcome::Success,
        TransferOutcome::ToolFailed { detail: "exit status: 23".to_string() },
        TransferOutcome::LaunchFailed { detail: "no such file".to_string() },
    ];
    let report = collect_failures(&pairs, &outcomes);
    assert!(!report.is_success());
    assert_eq!(report.exit_code(), EXIT_RETRIEVAL_FAILED);
    assert_eq!(report.failures.len(), 2);
    assert_eq!(
        report.failures[0],
        "Rsync failed for 'b' to 'out' with exit code: exit status: 23"
    );
    assert_eq!(
        report.failures[1],
        "Failed to transfer 'c' to '.' (error: no such file)"
    );
}

#[test]
fn all_success_outcomes_leave_an_empty_report() {
    let entries = vec!["a:.".to_string(), "b:.".to_string()];
    let pairs = parse_copy_back(&entries).ok().unwrap();
    let outcomes = vec![TransferOutcome::Success, TransferOutcome::Success];
    let report = collect_failures(&pairs, &outcomes);
    assert!(report.is_success());
    assert_eq!(report.exit_code(), 0);
}

#[test]
fn failure_message_is_none_exactly_on_success() {
    let pair = RetrievalPair { source: "x".to_string(), dest: "y".to_string() };
    assert!(retrieval_failure_message(&pair, &TransferOutcome::Success).is_none());
    let m = retrieval_failure_message(
        &pair,
        &TransferOutcome::ToolFailed { detail: "exit status: 1".to_string() },
    );
    assert_eq!(
        m.unwrap(),
        "Rsync failed for 'x' to 'y' with exit code: exit status: 1"
    );
}

#[test]
fn pull_arguments_for_one_pair() {
    let remote = Remote::standard();
    let pair = RetrievalPair { source: "target/release/bin".to_string(), dest: ".".to_string() };
    assert_eq!(
        pull_args(&remote, "/tmp/build", &pair),
        vec![
            "-a",
            "--compress",
            "-e",
            "ssh -p 22",
            "--info=progress2",
            "crunch:/tmp/build/target/release/bin",
            "./",
        ]
    );
}

#[test]
fn sync_arguments_keep_defaults_and_append_user_excludes() {
    let remote = Remote::standard();
    let excludes = vec!["cat.png".to_string(), "*.lock".to_string()];
    assert_eq!(
        sync_args(&remote, "/home/user/proj", "/tmp/build", &excludes),
        vec![
            "-a",
            "--delete",
            "--compress",
            "-e",
            "ssh -p 22",
            "--info=progress2",
            "--exclude",
            "target",
            "--exclude",
            ".git",
            "--exclude",
            "cat.png",
            "--exclude",
            "*.lock",
            "--rsync-path",
            "mkdir -p /tmp/build && rsync",
            "/home/user/proj/",
            "crunch:/tmp/build",
        ]
    );
}

#[test]
fn sync_arguments_exclude_version_control_even_with_no_user_patterns() {
    let remote = Remote::standard();
    let excludes: Vec<String> = Vec::new();
    let args = sync_args(&remote, "/home/user/proj", "/tmp/build", &excludes);
    let mut exclusions = Vec::new();
    let mut it = args.iter();
    while let Some(arg) = it.next() {
        if arg == "--exclude" {
            exclusions.push(it.next().unwrap().as_str());
        }
    }
    assert_eq!(exclusions, vec!["target", ".git"]);
}
