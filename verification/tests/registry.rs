use tls_render::registry::{Registries, Registry, RegistryKind};

#[test]
fn empty_registry_resolves_nothing() {
    let reg = Registry::new();
    assert_eq!(reg.resolve(0), None);
    assert_eq!(reg.resolve(0x1301), None);
    assert_eq!(reg.resolve(0xffff), None);
}

#[test]
fn inserted_code_resolves_to_its_name() {
    let mut reg = Registry::new();
    reg.insert(0x1301, "TLS_AES_128_GCM_SHA256");
    reg.insert(0x1302, "TLS_AES_256_GCM_SHA384");
    assert_eq!(reg.resolve(0x1301), Some("TLS_AES_128_GCM_SHA256"));
    assert_eq!(reg.resolve(0x1302), Some("TLS_AES_256_GCM_SHA384"));
    assert_eq!(reg.resolve(0x1303), None);
}

#[test]
fn later_insert_replaces_the_name() {
    let mut reg = Registry::new();
    reg.insert(23, "first");
    reg.insert(24, "other");
    reg.insert(23, "second");
    assert_eq!(reg.resolve(23), Some("second"));
    assert_eq!(reg.resolve(24), Some("other"));
}

#[test]
fn new_registries_are_all_empty() {
    let reg = Registries::new();
    assert_eq!(reg.cipher_suites.resolve(0x1301), None);
    assert_eq!(reg.named_groups.resolve(23), None);
    assert_eq!(reg.signature_schemes.resolve(0x0804), None);
    assert_eq!(reg.hash_algorithms.resolve(4), None);
    assert_eq!(reg.sign_algorithms.resolve(1), None);
    assert_eq!(reg.alert_severities.resolve(2), None);
}

#[test]
fn registries_are_independent_of_each_other() {
    let mut reg = Registries::new();
    reg.hash_algorithms.insert(4, "Sha256");
    assert_eq!(reg.hash_algorithms.resolve(4), Some("Sha256"));
    assert_eq!(reg.sign_algorithms.resolve(4), None);
    assert_eq!(reg.cipher_suites.resolve(4), None);
}

#[test]
fn resolve_by_kind_reads_the_table_of_that_kind() {
    let mut reg = Registries::new();
    reg.cipher_suites.insert(0x1301, "TLS_AES_128_GCM_SHA256");
    reg.named_groups.insert(23, "Secp256r1");
    reg.signature_schemes.insert(0x0804, "rsa_pss_rsae_sha256");
    reg.hash_algorithms.insert(4, "Sha256");
    reg.sign_algorithms.insert(1, "Rsa");
    reg.alert_severities.insert(2, "Fatal");
    assert_eq!(reg.resolve(RegistryKind::CipherSuite, 0x1301), Some("TLS_AES_128_GCM_SHA256"));
    assert_eq!(reg.resolve(RegistryKind::NamedGroup, 23), Some("Secp256r1"));
    assert_eq!(reg.resolve(RegistryKind::SignatureScheme, 0x0804), Some("rsa_pss_rsae_sha256"));
    assert_eq!(reg.resolve(RegistryKind::HashAlgorithm, 4), Some("Sha256"));
    assert_eq!(reg.resolve(RegistryKind::SignAlgorithm, 1), Some("Rsa"));
    assert_eq!(reg.resolve(RegistryKind::AlertSeverity, 2), Some("Fatal"));
    assert_eq!(reg.resolve(RegistryKind::CipherSuite, 23), None);
    assert_eq!(reg.resolve(RegistryKind::NamedGroup, 0x1301), None);
    assert_eq!(reg.resolve(RegistryKind::AlertSeverity, 4), None);
}

#[test]
fn table_by_kind_is_the_field_of_that_kind() {
    let mut reg = Registries::new();
    reg.hash_algorithms.insert(4, "Sha256");
    assert_eq!(reg.table(RegistryKind::HashAlgorithm).resolve(4), Some("Sha256"));
    assert_eq!(reg.table(RegistryKind::SignAlgorithm).resolve(4), None);
}
