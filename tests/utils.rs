use cangjie_card::utils::{decode_bundle, generate_random_string, ProvisionError, ProvisionStep, RuntimeProvisioner};

#[test]
fn random_strings_are_alphanumeric() {
    let s = generate_random_string(10);
    assert_eq!(s.chars().count(), 10);
    assert!(s.chars().all(|c| c.is_ascii_alphanumeric()));
    assert_eq!(generate_random_string(0), "");
}

#[test]
fn provisioning_extracts_once() {
    let mut p = RuntimeProvisioner::new();
    assert_eq!(p.check(false, false), ProvisionStep::Extract);
    assert_eq!(p.finish(Ok(())), Ok(()));
    assert_eq!(p.check(false, false), ProvisionStep::Ready);
    assert_eq!(p.check(true, true), ProvisionStep::Ready);
}

#[test]
fn partial_runtime_is_extracted_again() {
    let mut p = RuntimeProvisioner::new();
    assert_eq!(p.check(true, false), ProvisionStep::Extract);
    assert_eq!(p.finish(Err("disk full".to_string())), Err(ProvisionError::Install("disk full".to_string())));
    assert!(!p.ready);
    assert_eq!(p.check(true, false), ProvisionStep::Extract);
}

#[test]
fn installed_runtime_is_used() {
    let mut p = RuntimeProvisioner::new();
    assert_eq!(p.check(true, true), ProvisionStep::Ready);
    assert!(p.ready);
}

#[test]
fn bundle_is_decompressed() {
    let packed = zstd::stream::encode_all(&b"archive bytes"[..], 3).unwrap();
    assert_eq!(decode_bundle(&packed), Ok(b"archive bytes".to_vec()));
}

#[test]
fn invalid_bundle_is_rejected() {
    let r = decode_bundle(b"not zstd at all");
    assert!(matches!(r, Err(ProvisionError::Decompress(_))));
    assert!(r.unwrap_err().message().starts_with("Failed to decompress the analyzer bundle: "));
}
