use skia_handles::build_support::{
    add_link_lib, add_link_libs, add_link_search, build_release, parse_target, rerun_if_changed,
    rerun_if_env_changed, split_dashes, warning, Target,
};
use skia_handles::package_info::{
    crate_repository_hash, get_metadata, hash_from_record, is_crate, metadata_entries,
    nesting_within_bound, MetadataError, RepositoryHashError,
};

fn linux() -> Target {
    parse_target("x86_64-unknown-linux-gnu")
}

#[test]
fn parses_four_piece_triple() {
    let t = linux();
    assert_eq!(t.architecture, "x86_64");
    assert_eq!(t.vendor, "unknown");
    assert_eq!(t.system, "linux");
    assert_eq!(t.abi.as_deref(), Some("gnu"));
    assert_eq!(t.as_strs(), ("x86_64", "unknown", "linux", Some("gnu")));
}

#[test]
fn parses_three_piece_triple() {
    let t = parse_target("aarch64-apple-darwin");
    assert_eq!(t.system, "darwin");
    assert_eq!(t.abi, None);
    assert_eq!(t.as_strs().3, None);
    assert_eq!(t.to_string(), "aarch64-apple-darwin");
}

#[test]
fn rejects_short_triple() {
    assert!(split_dashes("wasm32").len() < 3);
    assert!(split_dashes("x86_64-linux").len() < 3);
    assert!(split_dashes("").len() < 3);
}

#[test]
fn extra_pieces_are_ignored() {
    let t = parse_target("a-b-c-d-e");
    assert_eq!(t.abi.as_deref(), Some("d"));
    assert_eq!(t.to_string(), "a-b-c-d");
}

#[test]
fn splits_every_dash() {
    assert_eq!(split_dashes("a--b-"), vec!["a", "", "b", ""]);
    assert_eq!(split_dashes(""), vec![""]);
}

#[test]
fn triple_text() {
    assert_eq!(linux().to_string(), "x86_64-unknown-linux-gnu");
}

#[test]
fn windows_library_names() {
    let windows = parse_target("x86_64-pc-windows-msvc");
    assert!(windows.is_windows());
    assert!(!linux().is_windows());
    assert_eq!(windows.library_to_filename("skia"), "skia.lib");
    assert_eq!(linux().library_to_filename("skia"), "libskia.a");
}

#[test]
fn directives() {
    let mut out: Vec<String> = Vec::new();
    warning(&mut out, "careful");
    rerun_if_changed(&mut out, "build.rs");
    rerun_if_env_changed(&mut out, "SKIA_DEBUG");
    add_link_lib(&mut out, "skia");
    add_link_search(&mut out, "/opt/lib");
    assert_eq!(
        out,
        vec![
            "cargo:warning=careful",
            "cargo:rerun-if-changed=build.rs",
            "cargo:rerun-if-env-changed=SKIA_DEBUG",
            "cargo:rustc-link-lib=skia",
            "cargo:rustc-link-search=/opt/lib",
        ]
    );
}

#[test]
fn link_libs_in_order() {
    let mut out = vec![String::from("first")];
    add_link_libs(&mut out, &[String::from("skia"), String::from("stdc++")]);
    assert_eq!(out, vec!["first", "cargo:rustc-link-lib=skia", "cargo:rustc-link-lib=stdc++"]);
    add_link_libs(&mut out, &[]);
    assert_eq!(out.len(), 3);
}

#[test]
fn repository_hash_found() {
    let text = r#"{"git": {"sha1": "0123abcd"}, "path_in_vcs": "skia-bindings"}"#;
    assert_eq!(crate_repository_hash(text), Ok(String::from("0123abcd")));
    assert_eq!(is_crate(Some(text)), Ok(true));
}

#[test]
fn repository_hash_errors() {
    assert_eq!(crate_repository_hash("{not json"), Err(RepositoryHashError::InvalidJson));
    assert_eq!(crate_repository_hash("{}"), Err(RepositoryHashError::MissingGit));
    assert_eq!(crate_repository_hash(r#"{"git": {}}"#), Err(RepositoryHashError::MissingSha1));
    assert_eq!(
        crate_repository_hash(r#"{"git": {"sha1": 5}}"#),
        Err(RepositoryHashError::Sha1NotText)
    );
    assert_eq!(is_crate(None), Ok(false));
    assert_eq!(is_crate(Some("{not json")), Ok(false));
    assert_eq!(is_crate(Some("{}")), Err(RepositoryHashError::MissingGit));
}

#[test]
fn metadata_entries_in_key_order() {
    let manifest = "[package]\nname = \"x\"\n\n[package.metadata]\nskia = \"m88\"\nbinaries = \"abc\"\n";
    assert_eq!(
        get_metadata(manifest),
        Ok(vec![
            (String::from("binaries"), String::from("abc")),
            (String::from("skia"), String::from("m88")),
        ])
    );
}

#[test]
fn metadata_errors() {
    assert_eq!(get_metadata("= broken"), Err(MetadataError::InvalidToml));
    assert_eq!(get_metadata("[dependencies]\n"), Err(MetadataError::MissingPackage));
    assert_eq!(get_metadata("[package]\nname = \"x\"\n"), Err(MetadataError::MissingMetadata));
    assert_eq!(get_metadata("[package]\nmetadata = 3\n"), Err(MetadataError::MetadataNotTable));
    assert_eq!(
        get_metadata("[package.metadata]\nn = 1\n"),
        Err(MetadataError::NotText(String::from("n")))
    );
}

#[test]
fn triple_round_trip() {
    let t = Target {
        architecture: String::from("riscv64gc"),
        vendor: String::from("unknown"),
        system: String::from("none"),
        abi: Some(String::from("elf")),
    };
    let back = parse_target(&t.to_string());
    assert_eq!(back.as_strs(), t.as_strs());
    let bare = Target { abi: None, ..t.clone() };
    assert_eq!(parse_target(&bare.to_string()).as_strs(), bare.as_strs());
}

#[test]
fn deep_manifest_is_refused() {
    let deep = format!("a = {}", "[".repeat(100_000));
    assert!(!nesting_within_bound(&deep));
    assert_eq!(get_metadata(&deep), Err(MetadataError::TooDeep));
    let exactly = format!("a = [{}]", "[1],".repeat(255));
    assert!(nesting_within_bound(&exactly));
    assert_eq!(get_metadata(&exactly), Err(MetadataError::MissingPackage));
    let over = format!("a = [{}]", "[1],".repeat(256));
    assert!(!nesting_within_bound(&over));
    assert_eq!(get_metadata(&over), Err(MetadataError::TooDeep));
}

#[test]
fn profiles() {
    assert_eq!(build_release("release"), Some(true));
    assert_eq!(build_release("debug"), Some(false));
    assert_eq!(build_release("bench"), None);
}

#[test]
fn deep_dotted_keys_are_refused() {
    let dotted = format!("a{} = 1", ".a".repeat(100_000));
    assert!(!nesting_within_bound(&dotted));
    assert_eq!(get_metadata(&dotted), Err(MetadataError::TooDeep));
    let header = format!("[a{}]", ".a".repeat(100_000));
    assert_eq!(get_metadata(&header), Err(MetadataError::TooDeep));
}

#[test]
fn record_lookups_decide_hash() {
    assert_eq!(hash_from_record(false, false, None), Err(RepositoryHashError::MissingGit));
    assert_eq!(hash_from_record(true, false, None), Err(RepositoryHashError::MissingSha1));
    assert_eq!(hash_from_record(true, true, None), Err(RepositoryHashError::Sha1NotText));
    assert_eq!(
        hash_from_record(true, true, Some(String::from("beef"))),
        Ok(String::from("beef"))
    );
}

#[test]
fn entry_values_must_be_text() {
    let good = vec![
        (String::from("a"), Some(String::from("1"))),
        (String::from("b"), Some(String::from("2"))),
    ];
    assert_eq!(
        metadata_entries(good),
        Ok(vec![
            (String::from("a"), String::from("1")),
            (String::from("b"), String::from("2")),
        ])
    );
    let bad = vec![
        (String::from("a"), Some(String::from("1"))),
        (String::from("b"), None),
        (String::from("c"), None),
    ];
    assert_eq!(metadata_entries(bad), Err(MetadataError::NotText(String::from("b"))));
    assert_eq!(metadata_entries(Vec::new()), Ok(Vec::new()));
}

#[test]
fn package_not_a_table() {
    assert_eq!(get_metadata("package = 1\n"), Err(MetadataError::MissingMetadata));
}
