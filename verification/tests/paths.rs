use crunch::path::{
    dir_name, ephemeral_build_path, persistent_build_path, resolve_build_path, uid_from_path,
    RemotePathBehavior,
};
use crunch::remote::Remote;

#[test]
fn dir_name_of_common_paths() {
    assert_eq!(dir_name("/home/user/proj"), Some("proj".to_string()));
    assert_eq!(dir_name("/home/user/proj/"), Some("proj".to_string()));
    assert_eq!(dir_name("proj"), Some("proj".to_string()));
    assert_eq!(dir_name("/"), None);
    assert_eq!(dir_name(""), None);
    assert_eq!(dir_name("/home/user/.."), None);
    assert_eq!(dir_name("/home/user/."), None);
}

#[test]
fn uid_is_stable_within_and_across_calls() {
    let a = uid_from_path("/home/user/proj");
    let b = uid_from_path("/home/user/proj");
    assert_eq!(a, b);
}

#[test]
fn persistent_path_repeats_for_same_project() {
    let remote = Remote::standard();
    let first = persistent_build_path("/home/user/proj", &remote).unwrap();
    let second = persistent_build_path("/home/user/proj", &remote).unwrap();
    assert_eq!(first, second);
    let uid = uid_from_path("/home/user/proj");
    assert_eq!(first, format!("~/crunch-builds/proj-{}", uid));
}

#[test]
fn persistent_path_differs_for_different_projects() {
    let remote = Remote::standard();
    let one = persistent_build_path("/home/alice/proj", &remote).unwrap();
    let other = persistent_build_path("/home/bob/proj", &remote).unwrap();
    assert_ne!(one, other);
}

#[test]
fn ephemeral_path_is_exact_for_a_given_seed() {
    let path = ephemeral_build_path("/home/user/proj", 123456789).unwrap();
    assert_eq!(path, "/tmp/crunch-proj-123456789");
}

#[test]
fn ephemeral_paths_differ_in_rapid_succession() {
    let remote = Remote::standard();
    let first = resolve_build_path(&RemotePathBehavior::Tmp, "/home/user/proj", &remote).unwrap();
    let second = resolve_build_path(&RemotePathBehavior::Tmp, "/home/user/proj", &remote).unwrap();
    assert_ne!(first, second);
}

#[test]
fn mirror_returns_the_project_path() {
    let remote = Remote::standard();
    let path = resolve_build_path(&RemotePathBehavior::Mirror, "/home/user/proj", &remote);
    assert_eq!(path.unwrap(), "/home/user/proj");
}

#[test]
fn resolution_fails_without_a_directory_name() {
    let remote = Remote::standard();
    let r = resolve_build_path(&RemotePathBehavior::Unique, "/", &remote);
    assert!(r.is_err());
    assert_eq!(
        r.err().unwrap().message(),
        "Project dir should always exist"
    );
    assert!(resolve_build_path(&RemotePathBehavior::Tmp, "/", &remote).is_err());
}
