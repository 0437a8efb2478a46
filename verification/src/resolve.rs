use vstd::prelude::*;

use crate::metadata::{BuildTarget, Package, WorkspaceMetadata};

verus! {

/// The fixed cross-compilation target identifier: every artifact this
/// library locates was compiled for this target.
pub open spec fn wasm_target_triple() -> Seq<char> {
    "wasm32-unknown-unknown"@
}

/// The profile subdirectory the toolchain uses for a build.
pub open spec fn profile_dir(release: bool) -> Seq<char> {
    if release {
        "release"@
    } else {
        "debug"@
    }
}

/// The target kind marking a compilation target whose artifact can be
/// loaded as a module.
pub open spec fn loadable_lib_kind() -> Seq<char> {
    "cdylib"@
}

/// How one character of a package or target name appears in a file name
/// the toolchain generates: the word separator `-` is replaced by `_`,
/// every other character stands as it is.
pub open spec fn norm_char(c: char) -> char {
    if c == '-' {
        '_'
    } else {
        c
    }
}

/// A name as it appears in the toolchain's generated file names.
pub open spec fn norm_name(s: Seq<char>) -> Seq<char> {
    Seq::new(s.len(), |i: int| norm_char(s[i]))
}

/// Replaces every `-` of a name by `_`, character for character.
pub fn normalize_name(name: &str) -> (r: String)
    ensures
        r@ == norm_name(name@),
{
    let n = name.unicode_len();
    let mut r = String::new();
    let mut i: usize = 0;
    while i < n
        invariant
            n == name@.len(),
            i <= n,
            r@.len() == i as int,
            forall|j: int| 0 <= j < i ==> r@[j] == norm_char(name@[j]),
        decreases n - i,
    {
        let c = name.get_char(i);
        if c == '-' {
            proof {
                reveal_strlit("_");
            }
            r.append("_");
        } else {
            let piece = name.substring_char(i, i + 1);
            r.append(piece);
        }
        i = i + 1;
    }
    proof {
        assert(r@ =~= norm_name(name@));
    }
    r
}

/// Whether a kind list declares a dynamically loadable library.
pub open spec fn is_lib_kind_list(kind: Seq<String>) -> bool {
    exists|k: int| 0 <= k < kind.len() && kind[k]@ == loadable_lib_kind()
}

/// Whether a compilation target produces a dynamically loadable library.
pub open spec fn is_lib_target(t: BuildTarget) -> bool {
    is_lib_kind_list(t.kind@)
}

/// The position of the first dynamically-loadable-library target at or
/// after `i`, if any. The first declared match wins, deliberately: a
/// package declaring several such targets resolves to the earliest one.
pub open spec fn lib_index_at(targets: Seq<BuildTarget>, i: int) -> Option<int>
    decreases targets.len() - i,
{
    if i < 0 || i >= targets.len() {
        None
    } else if is_lib_target(targets[i]) {
        Some(i)
    } else {
        lib_index_at(targets, i + 1)
    }
}

/// The position of the package with identifier `rid` at or after `i`,
/// if any.
pub open spec fn root_index_at(packages: Seq<Package>, rid: Seq<char>, i: int) -> Option<int>
    decreases packages.len() - i,
{
    if i < 0 || i >= packages.len() {
        None
    } else if packages[i].id@ == rid {
        Some(i)
    } else {
        root_index_at(packages, rid, i + 1)
    }
}

/// The package the build graph names as its resolution root: the first
/// package whose identifier equals the recorded root identifier, or
/// nothing when no root is recorded or none matches.
pub open spec fn spec_root_package(meta: WorkspaceMetadata) -> Option<int> {
    match meta.root_id {
        Option::None => None,
        Option::Some(rid) => root_index_at(meta.packages@, rid@, 0),
    }
}

fn has_lib_kind(kind: &Vec<String>) -> (r: bool)
    ensures
        r == is_lib_kind_list(kind@),
{
    let marker = String::from_str("cdylib");
    let mut k: usize = 0;
    while k < kind.len()
        invariant
            marker@ == loadable_lib_kind(),
            k <= kind@.len(),
            forall|j: int| 0 <= j < k ==> kind@[j]@ != loadable_lib_kind(),
        decreases kind@.len() - k,
    {
        if kind[k] == marker {
            return true;
        }
        k = k + 1;
    }
    false
}

/// The first compilation target in declaration order that produces a
/// dynamically loadable library.
pub fn find_lib_target(targets: &Vec<BuildTarget>) -> (r: Option<usize>)
    ensures
        match r {
            Option::Some(i) => i < targets@.len() && lib_index_at(targets@, 0) == Some(i as int),
            Option::None => lib_index_at(targets@, 0) is None,
        },
{
    let mut i: usize = 0;
    while i < targets.len()
        invariant
            i <= targets@.len(),
            lib_index_at(targets@, 0) == lib_index_at(targets@, i as int),
        decreases targets@.len() - i,
    {
        if has_lib_kind(&targets[i].kind) {
            return Some(i);
        }
        i = i + 1;
    }
    None
}

/// The directory that holds the compiled artifacts for one package: the
/// toolchain's target directory, nested one level deeper under the
/// normalized package name when the manifest belongs to a workspace member
/// (its directory differs from the workspace root), then the fixed target
/// triple, then the profile subdirectory.
pub open spec fn out_dir_model(
    meta: WorkspaceMetadata,
    manifest_dir: Seq<Seq<char>>,
    release: bool,
    pkg_name: Seq<char>,
) -> Seq<Seq<char>> {
    let nested = if manifest_dir != meta.workspace_root@ {
        meta.target_directory@.push(norm_name(pkg_name))
    } else {
        meta.target_directory@
    };
    nested.push(wasm_target_triple()).push(profile_dir(release))
}

/// A manifest that sits at the workspace root gets no package-name
/// subdirectory: for a debug build, the output directory is exactly the
/// target directory followed by the target triple and `debug`.
pub proof fn lemma_standalone_no_package_dir(
    meta: WorkspaceMetadata,
    manifest_dir: Seq<Seq<char>>,
    pkg_name: Seq<char>,
)
    requires
        manifest_dir == meta.workspace_root@,
    ensures
        out_dir_model(meta, manifest_dir, false, pkg_name) == meta.target_directory@.push(
            wasm_target_triple(),
        ).push(profile_dir(false)),
        out_dir_model(meta, manifest_dir, false, pkg_name).len() == meta.target_directory@.len()
            + 2,
{
}

/// A manifest of a workspace member (its directory differs from the
/// workspace root) gets the normalized package name as a subdirectory,
/// inserted right after the target directory and before the target-triple
/// and profile suffix.
pub proof fn lemma_member_package_dir(
    meta: WorkspaceMetadata,
    manifest_dir: Seq<Seq<char>>,
    release: bool,
    pkg_name: Seq<char>,
)
    requires
        manifest_dir != meta.workspace_root@,
    ensures
        out_dir_model(meta, manifest_dir, release, pkg_name) == meta.target_directory@.push(
            norm_name(pkg_name),
        ).push(wasm_target_triple()).push(profile_dir(release)),
        out_dir_model(meta, manifest_dir, release, pkg_name)[meta.target_directory@.len() as int]
            == norm_name(pkg_name),
{
}

/// Normalization replaces exactly the separator characters: the result has
/// the same length, every `-` becomes `_`, every other character is kept,
/// and no `-` survives. It is a function of the one name alone, so the
/// package name and the library target name are each normalized on their
/// own value.
pub proof fn lemma_normalization(s: Seq<char>)
    ensures
        norm_name(s).len() == s.len(),
        forall|i: int| 0 <= i < s.len() ==> norm_name(s)[i] == norm_char(s[i]),
        forall|i: int| 0 <= i < s.len() && s[i] == '-' ==> norm_name(s)[i] == '_',
        forall|i: int| 0 <= i < s.len() && s[i] != '-' ==> norm_name(s)[i] == s[i],
        forall|i: int| 0 <= i < s.len() ==> norm_name(s)[i] != '-',
{
}

} // verus!
