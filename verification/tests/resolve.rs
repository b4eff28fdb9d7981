use tls_render::registry::{Registries, RegistryKind};
use tls_render::resolve::{resolve_and_render, CipherU16, SignatureSchemeU16};

fn named_group_label(reg: &Registries, code: u16) -> String {
    resolve_and_render(reg, RegistryKind::NamedGroup, code)
}

fn hash_label(reg: &Registries, code: u8) -> String {
    resolve_and_render(reg, RegistryKind::HashAlgorithm, code as u16)
}

fn sign_label(reg: &Registries, code: u8) -> String {
    resolve_and_render(reg, RegistryKind::SignAlgorithm, code as u16)
}

fn severity_label(reg: &Registries, code: u8) -> String {
    resolve_and_render(reg, RegistryKind::AlertSeverity, code as u16)
}

fn fixture() -> Registries {
    let mut reg = Registries::new();
    reg.cipher_suites.insert(0x1301, "TLS_AES_128_GCM_SHA256");
    reg.cipher_suites.insert(0x002f, "TLS_RSA_WITH_AES_128_CBC_SHA");
    reg.signature_schemes.insert(0x0804, "rsa_pss_rsae_sha256");
    reg.named_groups.insert(23, "Secp256r1");
    reg.named_groups.insert(29, "EcdhX25519");
    reg.hash_algorithms.insert(4, "Sha256");
    reg.sign_algorithms.insert(1, "Rsa");
    reg.alert_severities.insert(1, "Warning");
    reg.alert_severities.insert(2, "Fatal");
    reg
}

#[test]
fn known_cipher_shows_code_and_name() {
    let reg = fixture();
    assert_eq!(CipherU16 { d: 0x1301 }.render(&reg), "0x1301(TLS_AES_128_GCM_SHA256)");
    assert_eq!(CipherU16 { d: 0x002f }.render(&reg), "0x002f(TLS_RSA_WITH_AES_128_CBC_SHA)");
}

#[test]
fn unknown_cipher_keeps_its_code() {
    let reg = fixture();
    assert_eq!(CipherU16 { d: 0x9999 }.render(&reg), "0x9999(Unknown cipher)");
    assert_eq!(CipherU16 { d: 0 }.render(&reg), "0x0000(Unknown cipher)");
    assert_eq!(CipherU16 { d: 0xffff }.render(&reg), "0xffff(Unknown cipher)");
}

#[test]
fn cipher_resolves_against_the_cipher_table_only() {
    let reg = fixture();
    assert_eq!(CipherU16 { d: 0x0804 }.render(&reg), "0x0804(Unknown cipher)");
}

#[test]
fn known_signature_scheme_shows_code_and_name() {
    let reg = fixture();
    assert_eq!(SignatureSchemeU16 { d: 0x0804 }.render(&reg), "0x0804(rsa_pss_rsae_sha256)");
}

#[test]
fn unknown_signature_scheme_keeps_its_code() {
    let reg = fixture();
    assert_eq!(
        SignatureSchemeU16 { d: 0x1301 }.render(&reg),
        "0x1301(Unknown signature scheme)"
    );
}

#[test]
fn known_group_is_its_label() {
    let reg = fixture();
    assert_eq!(named_group_label(&reg, 23), "Secp256r1");
    assert_eq!(named_group_label(&reg, 29), "EcdhX25519");
}

#[test]
fn unknown_group_keeps_hex_and_decimal() {
    let reg = fixture();
    assert_eq!(named_group_label(&reg, 0x9999), "<Unknown curve 0x9999/39321>");
    assert_eq!(named_group_label(&reg, 0), "<Unknown curve 0x0/0>");
    assert_eq!(named_group_label(&reg, 0xffff), "<Unknown curve 0xffff/65535>");
    assert_eq!(named_group_label(&reg, 0x100), "<Unknown curve 0x100/256>");
}

#[test]
fn hash_and_sign_labels() {
    let reg = fixture();
    assert_eq!(hash_label(&reg, 4), "Sha256");
    assert_eq!(hash_label(&reg, 0x99), "<Unknown hash 0x99/153>");
    assert_eq!(sign_label(&reg, 1), "Rsa");
    assert_eq!(sign_label(&reg, 0xa), "<Unknown signature 0xa/10>");
    assert_eq!(sign_label(&reg, 255), "<Unknown signature 0xff/255>");
}

#[test]
fn severity_labels() {
    let reg = fixture();
    assert_eq!(severity_label(&reg, 1), "Warning");
    assert_eq!(severity_label(&reg, 2), "Fatal");
    assert_eq!(severity_label(&reg, 5), "<Unknown severity 0x5/5>");
    assert_eq!(severity_label(&reg, 0), "<Unknown severity 0x0/0>");
}

#[test]
fn empty_name_is_still_a_name() {
    let mut reg = Registries::new();
    reg.cipher_suites.insert(7, "");
    reg.named_groups.insert(7, "");
    assert_eq!(CipherU16 { d: 7 }.render(&reg), "0x0007()");
    assert_eq!(named_group_label(&reg, 7), "");
}

#[test]
fn resolve_and_render_agrees_with_the_wrappers() {
    let reg = fixture();
    assert_eq!(
        resolve_and_render(&reg, RegistryKind::CipherSuite, 0x1301),
        CipherU16 { d: 0x1301 }.render(&reg)
    );
    assert_eq!(
        resolve_and_render(&reg, RegistryKind::CipherSuite, 0x9999),
        CipherU16 { d: 0x9999 }.render(&reg)
    );
    assert_eq!(
        resolve_and_render(&reg, RegistryKind::SignatureScheme, 0x0804),
        SignatureSchemeU16 { d: 0x0804 }.render(&reg)
    );
    assert_eq!(
        resolve_and_render(&reg, RegistryKind::SignatureScheme, 0x0000),
        "0x0000(Unknown signature scheme)"
    );
}

#[test]
fn each_kind_resolves_against_its_own_table() {
    let mut reg = Registries::new();
    reg.cipher_suites.insert(1, "suite");
    reg.named_groups.insert(1, "group");
    reg.signature_schemes.insert(1, "scheme");
    reg.hash_algorithms.insert(1, "hash");
    reg.sign_algorithms.insert(1, "sign");
    reg.alert_severities.insert(1, "level");
    assert_eq!(resolve_and_render(&reg, RegistryKind::CipherSuite, 1), "0x0001(suite)");
    assert_eq!(resolve_and_render(&reg, RegistryKind::NamedGroup, 1), "group");
    assert_eq!(resolve_and_render(&reg, RegistryKind::SignatureScheme, 1), "0x0001(scheme)");
    assert_eq!(resolve_and_render(&reg, RegistryKind::HashAlgorithm, 1), "hash");
    assert_eq!(resolve_and_render(&reg, RegistryKind::SignAlgorithm, 1), "sign");
    assert_eq!(resolve_and_render(&reg, RegistryKind::AlertSeverity, 1), "level");
    assert_eq!(resolve_and_render(&reg, RegistryKind::CipherSuite, 2), "0x0002(Unknown cipher)");
    assert_eq!(resolve_and_render(&reg, RegistryKind::NamedGroup, 2), "<Unknown curve 0x2/2>");
    assert_eq!(
        resolve_and_render(&reg, RegistryKind::SignatureScheme, 2),
        "0x0002(Unknown signature scheme)"
    );
    assert_eq!(resolve_and_render(&reg, RegistryKind::HashAlgorithm, 2), "<Unknown hash 0x2/2>");
    assert_eq!(
        resolve_and_render(&reg, RegistryKind::SignAlgorithm, 2),
        "<Unknown signature 0x2/2>"
    );
    assert_eq!(
        resolve_and_render(&reg, RegistryKind::AlertSeverity, 2),
        "<Unknown severity 0x2/2>"
    );
}
