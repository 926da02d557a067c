use cangjie_card::repository::{
    manifest_pattern, package_name_from_lookup, package_name_from_manifest, revision_of,
    workspace_path, MetadataError, RepoCleanup,
};

#[test]
fn manifest_yields_package_name() {
    assert_eq!(package_name_from_manifest("[package]\nname = \"demo\""), Ok("demo".to_string()));
}

#[test]
fn manifest_without_name_is_rejected() {
    assert_eq!(package_name_from_manifest("[package]\nversion = \"1.0.0\""), Err(MetadataError::MissingName));
    assert_eq!(package_name_from_manifest("[package]\nname = 3"), Err(MetadataError::MissingName));
    assert_eq!(package_name_from_manifest("name = \"demo\""), Err(MetadataError::MissingName));
}

#[test]
fn unparsable_manifest_is_rejected() {
    assert!(matches!(package_name_from_manifest("[package\nname ="), Err(MetadataError::Unparsable(_))));
}

#[test]
fn lookup_outcomes_map_to_errors() {
    assert_eq!(package_name_from_lookup(Ok(Some("p".to_string()))), Ok("p".to_string()));
    assert_eq!(package_name_from_lookup(Ok(None)), Err(MetadataError::MissingName));
    assert_eq!(package_name_from_lookup(Err("bad".to_string())), Err(MetadataError::Unparsable("bad".to_string())));
}

#[test]
fn metadata_messages() {
    assert_eq!(MetadataError::NotFound { pattern: "p".to_string() }.message(), "No cjpm.toml found");
    assert_eq!(MetadataError::Unreadable("x".to_string()).message(), "Failed to read cjpm.toml: x");
    assert_eq!(MetadataError::Unparsable("y".to_string()).message(), "Failed to parse TOML: y");
    assert_eq!(MetadataError::MissingName.message(), "package.name not found in cjpm.toml");
}

#[test]
fn search_pattern() {
    assert_eq!(manifest_pattern("/tmp/cjrepo_a"), "/tmp/cjrepo_a/**/cjpm.toml");
}

#[test]
fn workspace_names() {
    assert_eq!(workspace_path("abc123"), "/tmp/cjrepo_abc123");
}

#[test]
fn commit_ids_become_revisions() {
    let id: Vec<u8> = (0u8..20).map(|i| i * 13).collect();
    assert_eq!(revision_of(&id), Some("000d1a2734414e5b6875828f9ca9b6c3d0ddeaf7".to_string()));
    assert_eq!(revision_of(&[0xffu8; 20]), Some("f".repeat(40)));
    assert_eq!(revision_of(&[1u8, 2]), None);
    assert_eq!(revision_of(&[]), None);
}

#[test]
fn cleanup_guard_records_removal() {
    let mut g = RepoCleanup::new("/tmp/cjrepo_x".to_string());
    assert_eq!(g.repo_path, "/tmp/cjrepo_x");
    assert!(g.needs_removal());
    assert_eq!(
        g.finish_removal(Err("denied".to_string())),
        Err("Failed to remove repository directory: denied".to_string())
    );
    assert!(g.needs_removal());
    assert_eq!(g.finish_removal(Ok(())), Ok(()));
    assert!(!g.needs_removal());
}
