use tls_render::alert::TlsMessageAlert;
use tls_render::dh::ServerDHParams;
use tls_render::registry::Registries;
use tls_render::sign_hash::{DigitallySigned, HashSignAlgorithm};

fn fixture() -> Registries {
    let mut reg = Registries::new();
    reg.alert_severities.insert(1, "Warning");
    reg.alert_severities.insert(2, "Fatal");
    reg.hash_algorithms.insert(4, "Sha256");
    reg.sign_algorithms.insert(1, "Rsa");
    reg.sign_algorithms.insert(3, "Ecdsa");
    reg
}

#[test]
fn fatal_alert() {
    let reg = fixture();
    let alert = TlsMessageAlert { severity: 2, code: 10 };
    assert_eq!(alert.render(&reg), "TlsMessageAlert { severity: Fatal, code: 10 }");
}

#[test]
fn warning_alert() {
    let reg = fixture();
    let alert = TlsMessageAlert { severity: 1, code: 0 };
    assert_eq!(alert.render(&reg), "TlsMessageAlert { severity: Warning, code: 0 }");
}

#[test]
fn alert_of_unrecognized_severity() {
    let reg = fixture();
    let alert = TlsMessageAlert { severity: 0x63, code: 255 };
    assert_eq!(
        alert.render(&reg),
        "TlsMessageAlert { severity: <Unknown severity 0x63/99>, code: 255 }"
    );
}

#[test]
fn dh_group_size_of_32_bytes_is_256() {
    let g = [0x02u8; 32];
    let params = ServerDHParams { dh_p: &[0xff, 0xfe], dh_g: &g, dh_ys: &[0x01] };
    assert_eq!(params.group_size_bits(), 256);
    assert_eq!(
        params.render(),
        "ServerDHParams { group size: 256, dh_p: [ff fe], dh_g: [02 02 02 02 02 02 02 02 02 02 \
         02 02 02 02 02 02 02 02 02 02 02 02 02 02 02 02 02 02 02 02 02 02], dh_ys: [01] }"
    );
}

#[test]
fn dh_group_size_follows_the_generator_only() {
    let p = [0u8; 256];
    let params = ServerDHParams { dh_p: &p, dh_g: &[0x02], dh_ys: &[] };
    assert_eq!(params.group_size_bits(), 8);
    assert!(params.render().starts_with("ServerDHParams { group size: 8, dh_p: [00 00"));
    assert!(params.render().ends_with("00], dh_g: [02], dh_ys: [] }"));
}

#[test]
fn dh_of_empty_parameters() {
    let params = ServerDHParams { dh_p: &[], dh_g: &[], dh_ys: &[] };
    assert_eq!(params.group_size_bits(), 0);
    assert_eq!(params.render(), "ServerDHParams { group size: 0, dh_p: [], dh_g: [], dh_ys: [] }");
}

#[test]
fn hash_sign_algorithm_known() {
    let reg = fixture();
    let alg = HashSignAlgorithm { hash: 4, sign: 1 };
    assert_eq!(alg.render(&reg), "HashSignAlgorithm { hash: Sha256, sign: Rsa }");
}

#[test]
fn hash_sign_algorithm_unknown() {
    let reg = fixture();
    let alg = HashSignAlgorithm { hash: 0x99, sign: 0x10 };
    assert_eq!(
        alg.render(&reg),
        "HashSignAlgorithm { hash: <Unknown hash 0x99/153>, sign: <Unknown signature 0x10/16> }"
    );
    let half = HashSignAlgorithm { hash: 4, sign: 0 };
    assert_eq!(
        half.render(&reg),
        "HashSignAlgorithm { hash: Sha256, sign: <Unknown signature 0x0/0> }"
    );
}

#[test]
fn digitally_signed_with_algorithm() {
    let reg = fixture();
    let signed =
        DigitallySigned { alg: Some(HashSignAlgorithm { hash: 4, sign: 3 }), data: &[0x30, 0x45] };
    assert_eq!(
        signed.render(&reg),
        "DigitallySigned { alg: Some(HashSignAlgorithm { hash: Sha256, sign: Ecdsa }), \
         data: [30 45] }"
    );
}

#[test]
fn digitally_signed_without_algorithm() {
    let reg = fixture();
    let signed = DigitallySigned { alg: None, data: &[] };
    assert_eq!(signed.render(&reg), "DigitallySigned { alg: None, data: [] }");
}
