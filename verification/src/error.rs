use vstd::prelude::*;

use crate::fs_path::FsPath;

verus! {

/// Everything that can go wrong while locating the build artifacts. Each
/// failure is a distinct variant carrying exactly the data a caller needs
/// to render a precise diagnostic; none of these conditions is recovered
/// from silently.
#[derive(Debug)]
pub enum CrateError {
    /// The given manifest path does not exist, or its parent directory
    /// cannot be determined.
    InvalidManifestPath(FsPath),
    /// The package manager's metadata query could not be run or reported
    /// an error; the payload is the underlying description.
    MetadataQueryFailed(String),
    /// The build graph records no resolution root, or records one that
    /// matches no package of the graph.
    RootPackageNotFound,
    /// The root package declares no compilation target that produces a
    /// dynamically loadable library.
    LibNameNotFound,
    /// No compiled module exists at the path where the toolchain should
    /// have placed it; the payload is that expected path.
    OutputNotFound(FsPath),
}

impl CrateError {
    /// A short description of the failure, for diagnostics.
    pub fn describe(&self) -> (r: &'static str)
        ensures
            r@ == self.describe_spec(),
    {
        match self {
            CrateError::InvalidManifestPath(_) => "manifest path does not exist",
            CrateError::MetadataQueryFailed(_) => "unable to query package metadata",
            CrateError::RootPackageNotFound => "no root package in the build graph",
            CrateError::LibNameNotFound => "no dynamically loadable library target",
            CrateError::OutputNotFound(_) => "compiled module not found at the expected path",
        }
    }

    /// The description each variant carries.
    pub open spec fn describe_spec(&self) -> Seq<char> {
        match self {
            CrateError::InvalidManifestPath(_) => "manifest path does not exist"@,
            CrateError::MetadataQueryFailed(_) => "unable to query package metadata"@,
            CrateError::RootPackageNotFound => "no root package in the build graph"@,
            CrateError::LibNameNotFound => "no dynamically loadable library target"@,
            CrateError::OutputNotFound(_) => "compiled module not found at the expected path"@,
        }
    }
}

} // verus!
