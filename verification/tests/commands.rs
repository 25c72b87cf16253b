use crunch::command::{
    cleanup_command, cleanup_shell_args, compose_remote_command, exec_shell_args,
    extract_manifest_path,
};
use crunch::remote::Remote;

#[test]
fn extract_manifest_path_works() {
    // Test next arg
    let args = vec![
        "build".to_string(),
        "--release".to_string(),
        "--manifest-path".to_string(),
        "Cargo.toml".to_string(),
    ];
    assert_eq!(extract_manifest_path(&args), Some("Cargo.toml".to_string()));

    // Test equals
    let args = vec![
        "build".to_string(),
        "--release".to_string(),
        "--manifest-path=Cargo.toml".to_string(),
    ];
    assert_eq!(extract_manifest_path(&args), Some("Cargo.toml".to_string()));

    // Test none
    let args = vec!["build".to_string(), "--release".to_string()];
    assert_eq!(extract_manifest_path(&args), None);
}

#[test]
fn extract_manifest_path_takes_first_and_splits_once() {
    let args = vec![
        "--manifest-path=a/Cargo.toml".to_string(),
        "--manifest-path".to_string(),
        "b/Cargo.toml".to_string(),
    ];
    assert_eq!(extract_manifest_path(&args), Some("a/Cargo.toml".to_string()));

    let args = vec!["--manifest-path=x=y".to_string()];
    assert_eq!(extract_manifest_path(&args), Some("x=y".to_string()));

    let args = vec!["build".to_string(), "--manifest-path".to_string()];
    assert_eq!(extract_manifest_path(&args), None);
}

#[test]
fn composed_command_without_post_cargo() {
    let remote = Remote::standard();
    let command = vec!["test".to_string(), "--".to_string(), "--nocapture".to_string()];
    let composed = compose_remote_command(
        &remote,
        "/home/user/proj",
        "RUST_BACKTRACE=1",
        &command,
        &None,
    );
    assert_eq!(
        composed,
        "export CC=gcc; export CXX=g++; source ~/.profile; cd /home/user/proj; \
         RUST_BACKTRACE=1 cargo test -- --nocapture"
    );
}

#[test]
fn composed_command_with_post_cargo() {
    let remote = Remote::standard();
    let command = vec!["build".to_string(), "--release".to_string()];
    let composed = compose_remote_command(
        &remote,
        "/home/user/proj",
        "RUST_BACKTRACE=1",
        &command,
        &Some("echo done".to_string()),
    );
    assert_eq!(
        composed,
        "export CC=gcc; export CXX=g++; source ~/.profile; cd /home/user/proj; \
         RUST_BACKTRACE=1 cargo build --release \
         && echo Executing post-cargo command && echo done"
    );
}

#[test]
fn cleanup_command_quotes_the_path() {
    assert_eq!(
        cleanup_command("/tmp/crunch-proj-5"),
        "cd '/tmp/crunch-proj-5' && cargo clean && rm -r '/tmp/crunch-proj-5'"
    );
}

#[test]
fn shell_argument_lists() {
    let remote = Remote::standard();
    assert_eq!(
        exec_shell_args(&remote, "echo hi"),
        vec!["-p", "22", "-t", "crunch", "echo hi"]
    );
    assert_eq!(
        cleanup_shell_args(&remote, "/tmp/d"),
        vec!["-p", "22", "crunch", "cd '/tmp/d' && cargo clean && rm -r '/tmp/d'"]
    );
}
