use deploy_pipeline::artifact::{
    account_path, build_root, join_path, keystore_path, manifest_path, resolve_artifact_path,
};

#[test]
fn artifact_path_follows_the_convention() {
    assert_eq!(
        resolve_artifact_path("out", "mypkg", "MyContract"),
        "out/mypkg_MyContract.contract_class.json"
    );
}

#[test]
fn artifact_path_below_the_package_build_directory() {
    let root = build_root("hello");
    assert_eq!(root, "hello/target/dev");
    assert_eq!(
        resolve_artifact_path(&root, "hello", "Counter"),
        "hello/target/dev/hello_Counter.contract_class.json"
    );
}

#[test]
fn artifact_path_with_empty_parts() {
    assert_eq!(resolve_artifact_path("", "", ""), "/_.contract_class.json");
}

#[test]
fn manifest_lies_in_the_project_directory() {
    assert_eq!(manifest_path("projects/hello"), "projects/hello/Scarb.toml");
}

#[test]
fn keystore_and_account_lie_in_the_working_directory() {
    assert_eq!(keystore_path("target"), "target/account0_keystore.json");
    assert_eq!(account_path("target"), "target/account0_account.json");
}

#[test]
fn join_path_puts_one_slash_between() {
    assert_eq!(join_path("a", "b"), "a/b");
    assert_eq!(join_path("a/", "b"), "a//b");
}
