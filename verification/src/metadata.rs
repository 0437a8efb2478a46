use vstd::prelude::*;

use crate::fs_path::FsPath;

verus! {

/// One compilation target declared by a package: a named build output
/// together with the kinds of artifact it produces (a library, a binary,
/// a dynamically loadable module, ...).
#[derive(Debug)]
pub struct BuildTarget {
    pub name: String,
    pub kind: Vec<String>,
}

/// One package of the build graph.
#[derive(Debug)]
pub struct Package {
    pub id: String,
    pub name: String,
    pub targets: Vec<BuildTarget>,
}

/// The structured description of a workspace, as the package manager's
/// metadata query reports it: every package of the dependency graph, the
/// identifier of the package that dependency resolution named as the root
/// (absent when the query was not asked to resolve), the toolchain's target
/// directory, and the workspace root directory. It is produced fresh for
/// one resolution call and read only.
#[derive(Debug)]
pub struct WorkspaceMetadata {
    pub packages: Vec<Package>,
    pub root_id: Option<String>,
    pub target_directory: FsPath,
    pub workspace_root: FsPath,
}

/// What to build: the manifest to start from and the profile to use.
#[derive(Debug)]
pub struct BuildRequest {
    pub manifest_path: FsPath,
    pub release: bool,
}

} // verus!
