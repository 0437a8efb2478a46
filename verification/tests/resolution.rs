use artifact_paths::error::CrateError;
use artifact_paths::fs_path::{replace_extension, FsPath};
use artifact_paths::metadata::{BuildRequest, BuildTarget, Package, WorkspaceMetadata};
use artifact_paths::output_info::{confirm_output, manifest_dir, require_manifest, OutputInfo};
use artifact_paths::resolve::normalize_name;

fn path(parts: &[&str]) -> FsPath {
    FsPath { components: parts.iter().map(|p| p.to_string()).collect() }
}

fn target(name: &str, kinds: &[&str]) -> BuildTarget {
    BuildTarget { name: name.to_string(), kind: kinds.iter().map(|k| k.to_string()).collect() }
}

fn package(id: &str, name: &str, targets: Vec<BuildTarget>) -> Package {
    Package { id: id.to_string(), name: name.to_string(), targets }
}

fn member_workspace() -> WorkspaceMetadata {
    WorkspaceMetadata {
        packages: vec![package(
            "pkg-id 0.1.0",
            "my-crate",
            vec![target("my_crate", &["cdylib"])],
        )],
        root_id: Some("pkg-id 0.1.0".to_string()),
        target_directory: path(&["/", "ws", "target"]),
        workspace_root: path(&["/", "ws"]),
    }
}

fn components(p: &FsPath) -> Vec<String> {
    p.components.clone()
}

#[test]
fn member_manifest_nests_package_dir() {
    // The example scenario: a workspace member at /ws/member, workspace
    // root /ws, package my-crate with library target my_crate, debug build.
    let meta = member_workspace();
    let dir = path(&["/", "ws", "member"]);
    let info = OutputInfo::resolve_output(&meta, &dir, false).unwrap();
    assert_eq!(
        components(&info.output_wasm),
        vec!["/", "ws", "target", "my_crate", "wasm32-unknown-unknown", "debug", "my_crate.wasm"]
    );
    assert_eq!(
        components(&info.optimized_wasm),
        vec![
            "/",
            "ws",
            "target",
            "my_crate",
            "wasm32-unknown-unknown",
            "debug",
            "my_crate.opt.wasm"
        ]
    );
    assert_eq!(
        components(&info.metadata_wasm),
        vec![
            "/",
            "ws",
            "target",
            "my_crate",
            "wasm32-unknown-unknown",
            "debug",
            "my_crate.meta.wasm"
        ]
    );
}

#[test]
fn standalone_manifest_has_no_package_dir() {
    // A single-package manifest sitting at the workspace root itself: no
    // extra package-name subdirectory, only the target triple and profile.
    let meta = WorkspaceMetadata {
        packages: vec![package("solo-id", "solo-pkg", vec![target("solo_pkg", &["cdylib"])])],
        root_id: Some("solo-id".to_string()),
        target_directory: path(&["/", "proj", "target"]),
        workspace_root: path(&["/", "proj"]),
    };
    let dir = path(&["/", "proj"]);
    let info = OutputInfo::resolve_output(&meta, &dir, false).unwrap();
    assert_eq!(
        components(&info.output_wasm),
        vec!["/", "proj", "target", "wasm32-unknown-unknown", "debug", "solo_pkg.wasm"]
    );
}

#[test]
fn release_profile_selects_release_dir() {
    let meta = member_workspace();
    let dir = path(&["/", "ws", "member"]);
    let info = OutputInfo::resolve_output(&meta, &dir, true).unwrap();
    assert_eq!(
        components(&info.output_wasm),
        vec!["/", "ws", "target", "my_crate", "wasm32-unknown-unknown", "release", "my_crate.wasm"]
    );
}

#[test]
fn names_are_normalized_independently() {
    // The package name and the library target name each get their own
    // normalization: the separator is replaced in both, on their own value.
    let meta = WorkspaceMetadata {
        packages: vec![package(
            "id-1",
            "my-crate",
            vec![target("other-lib-name", &["cdylib"])],
        )],
        root_id: Some("id-1".to_string()),
        target_directory: path(&["/", "ws", "target"]),
        workspace_root: path(&["/", "ws"]),
    };
    let dir = path(&["/", "ws", "member"]);
    let info = OutputInfo::resolve_output(&meta, &dir, false).unwrap();
    assert_eq!(
        components(&info.output_wasm),
        vec![
            "/",
            "ws",
            "target",
            "my_crate",
            "wasm32-unknown-unknown",
            "debug",
            "other_lib_name.wasm"
        ]
    );
}

#[test]
fn normalization_replaces_every_separator() {
    assert_eq!(normalize_name("a-b-c-d"), "a_b_c_d");
    assert_eq!(normalize_name("no_change"), "no_change");
    assert_eq!(normalize_name(""), "");
    assert_eq!(normalize_name("---"), "___");
}

#[test]
fn extension_replacement_follows_last_dot() {
    assert_eq!(replace_extension("my_crate", "wasm"), "my_crate.wasm");
    assert_eq!(replace_extension("my.lib", "wasm"), "my.wasm");
    assert_eq!(replace_extension("my.lib", "opt.wasm"), "my.opt.wasm");
    assert_eq!(replace_extension(".hidden", "wasm"), ".hidden.wasm");
}

#[test]
fn dotted_target_name_keeps_one_stem() {
    let meta = WorkspaceMetadata {
        packages: vec![package("id-1", "pkg", vec![target("my.lib", &["cdylib"])])],
        root_id: Some("id-1".to_string()),
        target_directory: path(&["/", "t"]),
        workspace_root: path(&["/", "w"]),
    };
    let dir = path(&["/", "w"]);
    let info = OutputInfo::resolve_output(&meta, &dir, false).unwrap();
    let out = components(&info.output_wasm);
    let opt = components(&info.optimized_wasm);
    assert_eq!(out[out.len() - 1], "my.wasm");
    assert_eq!(opt[opt.len() - 1], "my.opt.wasm");
}

#[test]
fn resolution_is_idempotent() {
    // The same request against the same workspace description resolves to
    // identical output, component for component.
    let meta = member_workspace();
    let dir = path(&["/", "ws", "member"]);
    let a = OutputInfo::resolve_output(&meta, &dir, false).unwrap();
    let b = OutputInfo::resolve_output(&meta, &dir, false).unwrap();
    assert_eq!(components(&a.output_wasm), components(&b.output_wasm));
    assert_eq!(components(&a.optimized_wasm), components(&b.optimized_wasm));
    assert_eq!(components(&a.metadata_wasm), components(&b.metadata_wasm));
}

#[test]
fn artifacts_are_siblings() {
    // Same parent directory, same stem, only the extension differs.
    let meta = member_workspace();
    let dir = path(&["/", "ws", "member"]);
    let info = OutputInfo::resolve_output(&meta, &dir, false).unwrap();
    let out = components(&info.output_wasm);
    let opt = components(&info.optimized_wasm);
    let met = components(&info.metadata_wasm);
    assert_eq!(out[..out.len() - 1], opt[..opt.len() - 1]);
    assert_eq!(out[..out.len() - 1], met[..met.len() - 1]);
    assert_eq!(out[out.len() - 1], "my_crate.wasm");
    assert_eq!(opt[opt.len() - 1], "my_crate.opt.wasm");
    assert_eq!(met[met.len() - 1], "my_crate.meta.wasm");
}

#[test]
fn missing_manifest_is_rejected_up_front() {
    let request = BuildRequest { manifest_path: path(&["/", "no", "Cargo.toml"]), release: false };
    match require_manifest(request, false) {
        Err(CrateError::InvalidManifestPath(p)) => {
            assert_eq!(components(&p), vec!["/", "no", "Cargo.toml"]);
        }
        _ => panic!("expected InvalidManifestPath"),
    }
}

#[test]
fn present_manifest_passes_through() {
    let request = BuildRequest { manifest_path: path(&["/", "ws", "Cargo.toml"]), release: true };
    match require_manifest(request, true) {
        Ok(q) => {
            assert_eq!(components(&q.manifest_path), vec!["/", "ws", "Cargo.toml"]);
            assert!(q.release);
        }
        _ => panic!("expected the request back"),
    }
}

#[test]
fn manifest_dir_drops_the_file_name() {
    let p = path(&["/", "ws", "member", "Cargo.toml"]);
    match manifest_dir(&p) {
        Ok(d) => assert_eq!(components(&d), vec!["/", "ws", "member"]),
        _ => panic!("expected the parent directory"),
    }
    let empty = path(&[]);
    assert!(matches!(manifest_dir(&empty), Err(CrateError::InvalidManifestPath(_))));
}

#[test]
fn missing_root_package_is_reported() {
    // No resolution root recorded at all.
    let mut meta = member_workspace();
    meta.root_id = None;
    let dir = path(&["/", "ws", "member"]);
    let r = OutputInfo::resolve_output(&meta, &dir, false);
    assert!(matches!(r, Err(CrateError::RootPackageNotFound)));

    // A recorded root that matches no package of the graph.
    let mut meta = member_workspace();
    meta.root_id = Some("unknown-id".to_string());
    let r = OutputInfo::resolve_output(&meta, &dir, false);
    assert!(matches!(r, Err(CrateError::RootPackageNotFound)));
}

#[test]
fn missing_lib_target_is_reported() {
    // A root package without any dynamically-loadable-library target gets
    // the specific failure, not a generic one.
    let meta = WorkspaceMetadata {
        packages: vec![package(
            "id-1",
            "my-crate",
            vec![target("my_crate", &["bin"]), target("other", &["rlib", "staticlib"])],
        )],
        root_id: Some("id-1".to_string()),
        target_directory: path(&["/", "ws", "target"]),
        workspace_root: path(&["/", "ws"]),
    };
    let dir = path(&["/", "ws", "member"]);
    let r = OutputInfo::resolve_output(&meta, &dir, false);
    assert!(matches!(r, Err(CrateError::LibNameNotFound)));
}

#[test]
fn first_declared_lib_target_wins() {
    let meta = WorkspaceMetadata {
        packages: vec![package(
            "id-1",
            "pkg",
            vec![
                target("first-lib", &["rlib", "cdylib"]),
                target("second-lib", &["cdylib"]),
            ],
        )],
        root_id: Some("id-1".to_string()),
        target_directory: path(&["/", "t"]),
        workspace_root: path(&["/", "t"]),
    };
    let dir = path(&["/", "t"]);
    let info = OutputInfo::resolve_output(&meta, &dir, false).unwrap();
    let out = components(&info.output_wasm);
    assert_eq!(out[out.len() - 1], "first_lib.wasm");
}

#[test]
fn root_package_finds_the_recorded_root() {
    let meta = WorkspaceMetadata {
        packages: vec![
            package("id-a", "a", vec![]),
            package("id-b", "b", vec![]),
        ],
        root_id: Some("id-b".to_string()),
        target_directory: path(&["/", "t"]),
        workspace_root: path(&["/", "t"]),
    };
    assert_eq!(OutputInfo::root_package(&meta), Some(1));
}

#[test]
fn missing_artifact_carries_its_expected_path() {
    let meta = member_workspace();
    let dir = path(&["/", "ws", "member"]);
    let info = OutputInfo::resolve_output(&meta, &dir, false).unwrap();
    let expected = components(&info.output_wasm);
    match confirm_output(info, false) {
        Err(CrateError::OutputNotFound(p)) => assert_eq!(components(&p), expected),
        _ => panic!("expected OutputNotFound"),
    }
}

#[test]
fn present_artifact_passes_through() {
    let meta = member_workspace();
    let dir = path(&["/", "ws", "member"]);
    let info = OutputInfo::resolve_output(&meta, &dir, false).unwrap();
    let expected = components(&info.output_wasm);
    match confirm_output(info, true) {
        Ok(out) => assert_eq!(components(&out.output_wasm), expected),
        _ => panic!("expected the info back"),
    }
}

#[test]
fn errors_describe_themselves() {
    assert_eq!(
        CrateError::RootPackageNotFound.describe(),
        "no root package in the build graph"
    );
    assert_eq!(
        CrateError::LibNameNotFound.describe(),
        "no dynamically loadable library target"
    );
    assert_eq!(
        CrateError::OutputNotFound(path(&["/", "x.wasm"])).describe(),
        "compiled module not found at the expected path"
    );
}
