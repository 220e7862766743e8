//! Where the files of a deployment are expected: the project manifest, the
//! compiled contract artifact, the keystore and the account descriptor.

use vstd::prelude::*;
use vstd::string::*;

verus! {

/// `file` inside the directory `dir`.
pub open spec fn path_in(dir: Seq<char>, file: Seq<char>) -> Seq<char> {
    dir + "/"@ + file
}

/// Name of the compiled artifact of a contract: package name, an underscore,
/// contract name and the fixed ending.
pub open spec fn artifact_file_name(package_name: Seq<char>, contract_name: Seq<char>) -> Seq<
    char,
> {
    package_name + "_"@ + contract_name + ".contract_class.json"@
}

/// Path of the compiled artifact below the build directory `build_root`.
pub open spec fn artifact_path(
    build_root: Seq<char>,
    package_name: Seq<char>,
    contract_name: Seq<char>,
) -> Seq<char> {
    path_in(build_root, artifact_file_name(package_name, contract_name))
}

/// The directory into which the compiler writes the artifacts of a package.
pub open spec fn build_root_of(package_name: Seq<char>) -> Seq<char> {
    package_name + "/target/dev"@
}

/// Path of the manifest of the project at `project_path`.
pub open spec fn manifest_path_of(project_path: Seq<char>) -> Seq<char> {
    path_in(project_path, "Scarb.toml"@)
}

/// Path of the keystore file below the working directory.
pub open spec fn keystore_path_of(working_dir: Seq<char>) -> Seq<char> {
    path_in(working_dir, "account0_keystore.json"@)
}

/// Path of the account descriptor below the working directory.
pub open spec fn account_path_of(working_dir: Seq<char>) -> Seq<char> {
    path_in(working_dir, "account0_account.json"@)
}

/// `file` inside the directory `dir`.
pub fn join_path(dir: &str, file: &str) -> (path: String)
    ensures
        path@ == path_in(dir@, file@),
{
    let mut path = dir.to_owned();
    path.append("/");
    path.append(file);
    path
}

/// Path of the compiled artifact of `contract_name` in package `package_name`,
/// below the build directory `build_root`. Nothing is looked up on disk.
pub fn resolve_artifact_path(build_root: &str, package_name: &str, contract_name: &str) -> (path:
    String)
    ensures
        path@ == artifact_path(build_root@, package_name@, contract_name@),
{
    let mut name = package_name.to_owned();
    name.append("_");
    name.append(contract_name);
    name.append(".contract_class.json");
    join_path(build_root, name.as_str())
}

/// The directory into which the compiler writes the artifacts of a package.
pub fn build_root(package_name: &str) -> (dir: String)
    ensures
        dir@ == build_root_of(package_name@),
{
    let mut dir = package_name.to_owned();
    dir.append("/target/dev");
    dir
}

/// Path of the manifest of the project at `project_path`.
pub fn manifest_path(project_path: &str) -> (path: String)
    ensures
        path@ == manifest_path_of(project_path@),
{
    join_path(project_path, "Scarb.toml")
}

/// Path of the keystore file below the working directory.
pub fn keystore_path(working_dir: &str) -> (path: String)
    ensures
        path@ == keystore_path_of(working_dir@),
{
    join_path(working_dir, "account0_keystore.json")
}

/// Path of the account descriptor below the working directory.
pub fn account_path(working_dir: &str) -> (path: String)
    ensures
        path@ == account_path_of(working_dir@),
{
    join_path(working_dir, "account0_account.json")
}

} // verus!
