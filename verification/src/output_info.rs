use vstd::prelude::*;

use crate::error::CrateError;
use crate::fs_path::{replace_extension, stem_of, with_ext, FsPath};
use crate::metadata::{BuildRequest, WorkspaceMetadata};
use crate::resolve::{
    find_lib_target, lib_index_at, norm_name, normalize_name, out_dir_model, root_index_at,
    spec_root_package,
};

verus! {

/// The three on-disk locations an orchestrator needs after a build: the
/// compiled module itself, and the places where its optimized and
/// metadata-augmented siblings will be written by later pipeline stages.
/// All three sit in the same directory and share the same stem, differing
/// only in their extension; only the primary artifact is guaranteed to
/// exist when a value of this type is handed out.
#[derive(Debug)]
pub struct OutputInfo {
    pub output_wasm: FsPath,
    pub optimized_wasm: FsPath,
    pub metadata_wasm: FsPath,
}

/// What artifact resolution returns for a given workspace description,
/// manifest directory and profile: either the three artifact paths, in the
/// order primary, optimized, metadata-augmented, or the first failure met.
/// The root package must be found before its library target is looked for,
/// so a graph without a root reports the missing root, not a missing
/// library.
pub open spec fn resolve_model(
    meta: WorkspaceMetadata,
    manifest_dir: Seq<Seq<char>>,
    release: bool,
) -> Result<(Seq<Seq<char>>, Seq<Seq<char>>, Seq<Seq<char>>), CrateError> {
    match spec_root_package(meta) {
        Option::None => Result::Err(CrateError::RootPackageNotFound),
        Option::Some(p) => {
            let pkg = meta.packages@[p];
            match lib_index_at(pkg.targets@, 0) {
                Option::None => Result::Err(CrateError::LibNameNotFound),
                Option::Some(t) => {
                    let dir = out_dir_model(meta, manifest_dir, release, pkg.name@);
                    let lib = norm_name(pkg.targets@[t].name@);
                    Result::Ok(
                        (
                            dir.push(with_ext(lib, "wasm"@)),
                            dir.push(with_ext(lib, "opt.wasm"@)),
                            dir.push(with_ext(lib, "meta.wasm"@)),
                        ),
                    )
                },
            }
        },
    }
}

/// Whether an `OutputInfo` is what the resolution model answers: the model
/// succeeded and the three paths are its three answers.
pub open spec fn matches_resolution(
    info: OutputInfo,
    m: Result<(Seq<Seq<char>>, Seq<Seq<char>>, Seq<Seq<char>>), CrateError>,
) -> bool {
    &&& m is Ok
    &&& info.output_wasm@ == m->Ok_0.0
    &&& info.optimized_wasm@ == m->Ok_0.1
    &&& info.metadata_wasm@ == m->Ok_0.2
}

impl OutputInfo {
    /// The package the build graph names as its resolution root: the first
    /// package whose identifier equals the recorded root identifier.
    pub fn root_package(metadata: &WorkspaceMetadata) -> (r: Option<usize>)
        ensures
            match r {
                Option::Some(i) => i < metadata.packages@.len() && spec_root_package(*metadata)
                    == Some(i as int),
                Option::None => spec_root_package(*metadata) is None,
            },
    {
        let rid = match &metadata.root_id {
            Option::None => {
                return None;
            },
            Option::Some(rid) => rid,
        };
        let mut i: usize = 0;
        while i < metadata.packages.len()
            invariant
                metadata.root_id == Option::Some(*rid),
                i <= metadata.packages@.len(),
                root_index_at(metadata.packages@, rid@, 0) == root_index_at(
                    metadata.packages@,
                    rid@,
                    i as int,
                ),
            decreases metadata.packages@.len() - i,
        {
            if metadata.packages[i].id == *rid {
                return Some(i);
            }
            i = i + 1;
        }
        None
    }

    /// Resolves the three artifact paths for one build: finds the root
    /// package and its dynamically-loadable-library target, normalizes
    /// both names, and composes the output directory from the workspace
    /// layout, the fixed target triple and the chosen profile. Succeeds
    /// exactly when the graph has a resolvable root package with such a
    /// target; `manifest_dir` is the canonicalized directory of the
    /// manifest being built.
    pub fn resolve_output(metadata: &WorkspaceMetadata, manifest_dir: &FsPath, release: bool) -> (r:
        Result<OutputInfo, CrateError>)
        ensures
            match resolve_model(*metadata, manifest_dir@, release) {
                Result::Ok(paths) => r matches Result::Ok(info) && info.output_wasm@ == paths.0
                    && info.optimized_wasm@ == paths.1 && info.metadata_wasm@ == paths.2,
                Result::Err(e) => r matches Result::Err(e2) && e2 == e,
            },
    {
        let p = match Self::root_package(metadata) {
            Option::None => {
                return Err(CrateError::RootPackageNotFound);
            },
            Option::Some(p) => p,
        };
        let pkg = &metadata.packages[p];
        let package_name = normalize_name(pkg.name.as_str());
        let t = match find_lib_target(&pkg.targets) {
            Option::None => {
                return Err(CrateError::LibNameNotFound);
            },
            Option::Some(t) => t,
        };
        let lib_name = normalize_name(pkg.targets[t].name.as_str());

        let mut target_dir = metadata.target_directory.duplicate();
        if !manifest_dir.same_path(&metadata.workspace_root) {
            target_dir.push(package_name);
        }
        target_dir.push(String::from_str("wasm32-unknown-unknown"));
        target_dir.push(String::from_str(if release { "release" } else { "debug" }));

        let mut output_wasm = target_dir.duplicate();
        output_wasm.push(replace_extension(lib_name.as_str(), "wasm"));
        let mut optimized_wasm = target_dir.duplicate();
        optimized_wasm.push(replace_extension(lib_name.as_str(), "opt.wasm"));
        let mut metadata_wasm = target_dir;
        metadata_wasm.push(replace_extension(lib_name.as_str(), "meta.wasm"));

        Ok(OutputInfo { output_wasm, optimized_wasm, metadata_wasm })
    }
}

/// The first precondition of a resolution: the manifest must exist
/// before anything else is attempted. `present` is the caller's answer
/// from probing the filesystem for the request's manifest path; an absent
/// manifest is rejected here, with its path, and the request passes
/// through unchanged otherwise.
pub fn require_manifest(request: BuildRequest, present: bool) -> (r: Result<
    BuildRequest,
    CrateError,
>)
    ensures
        present ==> (r matches Result::Ok(q) && q == request),
        !present ==> (r matches Result::Err(CrateError::InvalidManifestPath(p)) && p
            == request.manifest_path),
{
    if present {
        Ok(request)
    } else {
        Err(CrateError::InvalidManifestPath(request.manifest_path))
    }
}

/// The directory holding the manifest: the canonicalized manifest path
/// without its final component. A path with no components has no parent;
/// that is reported as an invalid manifest path carrying the path itself.
pub fn manifest_dir(manifest_path: &FsPath) -> (r: Result<FsPath, CrateError>)
    ensures
        manifest_path@.len() > 0 ==> (r matches Result::Ok(d) && d@ == manifest_path@.drop_last()),
        manifest_path@.len() == 0 ==> (r matches Result::Err(CrateError::InvalidManifestPath(p))
            && p@ == manifest_path@),
{
    match manifest_path.parent() {
        Option::Some(d) => Ok(d),
        Option::None => Err(CrateError::InvalidManifestPath(manifest_path.duplicate())),
    }
}

/// The last check of a resolution: the primary artifact must already be on
/// disk. `present` is the caller's answer from probing the filesystem for
/// the computed output path; when the artifact is absent the failure
/// carries exactly that expected path. The sibling paths are never
/// probed: their absence is expected before the later pipeline stages
/// have run.
pub fn confirm_output(info: OutputInfo, present: bool) -> (r: Result<OutputInfo, CrateError>)
    ensures
        present ==> (r matches Result::Ok(out) && out == info),
        !present ==> (r matches Result::Err(CrateError::OutputNotFound(p)) && p
            == info.output_wasm),
{
    if present {
        Ok(info)
    } else {
        Err(CrateError::OutputNotFound(info.output_wasm))
    }
}

/// Resolution is a pure function of its inputs: any two results that
/// satisfy the resolution model for the same workspace description,
/// manifest directory and profile are identical, so resolving the same
/// request twice over an unchanged filesystem yields identical output.
pub proof fn lemma_resolution_idempotent(
    meta: WorkspaceMetadata,
    manifest_dir: Seq<Seq<char>>,
    release: bool,
    a: OutputInfo,
    b: OutputInfo,
)
    requires
        matches_resolution(a, resolve_model(meta, manifest_dir, release)),
        matches_resolution(b, resolve_model(meta, manifest_dir, release)),
    ensures
        a.output_wasm@ == b.output_wasm@,
        a.optimized_wasm@ == b.optimized_wasm@,
        a.metadata_wasm@ == b.metadata_wasm@,
{
}

/// The optimized and metadata artifacts always sit beside the primary
/// artifact: the three paths share their parent directory and the stem of
/// their file name, and differ only in the extension.
pub proof fn lemma_sibling_artifacts(
    meta: WorkspaceMetadata,
    manifest_dir: Seq<Seq<char>>,
    release: bool,
    info: OutputInfo,
)
    requires
        matches_resolution(info, resolve_model(meta, manifest_dir, release)),
    ensures
        info.output_wasm@.len() >= 1,
        info.optimized_wasm@.drop_last() == info.output_wasm@.drop_last(),
        info.metadata_wasm@.drop_last() == info.output_wasm@.drop_last(),
        exists|stem: Seq<char>|
            info.output_wasm@.last() == stem + seq!['.'] + "wasm"@ && info.optimized_wasm@.last()
                == stem + seq!['.'] + "opt.wasm"@ && info.metadata_wasm@.last() == stem
                + seq!['.'] + "meta.wasm"@,
{
    let p = choose|p: int| spec_root_package(meta) == Option::Some(p);
    let pkg = meta.packages@[p];
    let t = choose|t: int| lib_index_at(pkg.targets@, 0) == Option::Some(t);
    let dir = out_dir_model(meta, manifest_dir, release, pkg.name@);
    let lib = norm_name(pkg.targets@[t].name@);
    let stem = stem_of(lib);
    assert(info.output_wasm@ == dir.push(with_ext(lib, "wasm"@)));
    assert(info.optimized_wasm@.drop_last() =~= dir);
    assert(info.output_wasm@.drop_last() =~= dir);
    assert(info.metadata_wasm@.drop_last() =~= dir);
    assert(info.output_wasm@.last() == stem + seq!['.'] + "wasm"@ && info.optimized_wasm@.last()
        == stem + seq!['.'] + "opt.wasm"@ && info.metadata_wasm@.last() == stem + seq!['.']
        + "meta.wasm"@);
}

} // verus!
