use tls_render::messages::{
    RawCertificate, TlsClientHelloContents, TlsClientKeyExchangeContents, TlsHelloRetryContents,
    TlsRecordHeader, TlsServerHelloContents, TlsServerHelloV13Contents,
    TlsServerKeyExchangeContents,
};
use tls_render::registry::Registries;

fn fixture() -> Registries {
    let mut reg = Registries::new();
    reg.cipher_suites.insert(0x1301, "TLS_AES_128_GCM_SHA256");
    reg.cipher_suites.insert(0xc02f, "TLS_ECDHE_RSA_WITH_AES_128_GCM_SHA256");
    reg
}

#[test]
fn client_hello_with_known_and_unknown_cipher() {
    let reg = fixture();
    let hello = TlsClientHelloContents {
        version: 0x0303,
        rand_time: 1,
        rand_data: &[0x00, 0x01],
        session_id: None,
        ciphers: vec![0x1301, 0x9999],
        comp: vec![0],
        ext: None,
    };
    assert_eq!(
        hello.render(&reg),
        "TlsClientHelloContents { version: 0x0303, rand_time: 1, rand_data: [00 01], \
         session_id: None, ciphers: [0x1301(TLS_AES_128_GCM_SHA256), 0x9999(Unknown cipher)], \
         comp: [0x00], ext: None }"
    );
}

#[test]
fn client_hello_with_session_and_extensions() {
    let reg = fixture();
    let hello = TlsClientHelloContents {
        version: 0x0301,
        rand_time: 0xffff_ffff,
        rand_data: &[],
        session_id: Some(&[0xde, 0xad]),
        ciphers: vec![],
        comp: vec![1, 0],
        ext: Some(&[]),
    };
    assert_eq!(
        hello.render(&reg),
        "TlsClientHelloContents { version: 0x0301, rand_time: 4294967295, rand_data: [], \
         session_id: Some([de ad]), ciphers: [], comp: [0x01, 0x00], ext: Some([]) }"
    );
}

#[test]
fn client_hello_keeps_wire_order_of_ciphers() {
    let reg = fixture();
    let hello = TlsClientHelloContents {
        version: 0x0303,
        rand_time: 0,
        rand_data: &[],
        session_id: None,
        ciphers: vec![0xc02f, 0x0000, 0x1301, 0xc02f],
        comp: vec![],
        ext: None,
    };
    assert_eq!(
        hello.render(&reg),
        "TlsClientHelloContents { version: 0x0303, rand_time: 0, rand_data: [], \
         session_id: None, ciphers: [0xc02f(TLS_ECDHE_RSA_WITH_AES_128_GCM_SHA256), \
         0x0000(Unknown cipher), 0x1301(TLS_AES_128_GCM_SHA256), \
         0xc02f(TLS_ECDHE_RSA_WITH_AES_128_GCM_SHA256)], comp: [], ext: None }"
    );
}

#[test]
fn server_hello() {
    let reg = fixture();
    let hello = TlsServerHelloContents {
        version: 0x0303,
        rand_time: 1234567890,
        rand_data: &[0xaa],
        session_id: Some(&[]),
        cipher: 0xc02f,
        compression: 0,
        ext: Some(&[0xff, 0x01, 0x00, 0x01, 0x00]),
    };
    assert_eq!(
        hello.render(&reg),
        "TlsServerHelloContents { version: 0x0303, rand_time: 1234567890, rand_data: [aa], \
         session_id: Some([]), cipher: 0xc02f(TLS_ECDHE_RSA_WITH_AES_128_GCM_SHA256), \
         compression: 0x00, ext: Some([ff 01 00 01 00]) }"
    );
}

#[test]
fn server_hello_with_unknown_cipher() {
    let reg = fixture();
    let hello = TlsServerHelloContents {
        version: 0x0300,
        rand_time: 10,
        rand_data: &[],
        session_id: None,
        cipher: 0x00ff,
        compression: 0x40,
        ext: None,
    };
    assert_eq!(
        hello.render(&reg),
        "TlsServerHelloContents { version: 0x0300, rand_time: 10, rand_data: [], \
         session_id: None, cipher: 0x00ff(Unknown cipher), compression: 0x40, ext: None }"
    );
}

#[test]
fn server_hello_v13() {
    let reg = fixture();
    let hello = TlsServerHelloV13Contents {
        version: 0x7f12,
        random: &[0x01, 0x02, 0x03],
        cipher: 0x1301,
        ext: None,
    };
    assert_eq!(
        hello.render(&reg),
        "TlsServerHelloV13Contents { version: 0x7f12, random: [01 02 03], \
         cipher: 0x1301(TLS_AES_128_GCM_SHA256), ext: None }"
    );
}

#[test]
fn hello_retry() {
    let retry = TlsHelloRetryContents { version: 0x7f12, ext: Some(&[0x00, 0x28]) };
    assert_eq!(retry.render(), "TlsHelloRetryContents { version: 0x7f12, ext: Some([00 28]) }");
    let bare = TlsHelloRetryContents { version: 0x0304, ext: None };
    assert_eq!(bare.render(), "TlsHelloRetryContents { version: 0x0304, ext: None }");
}

#[test]
fn raw_certificate() {
    let cert = RawCertificate { data: &[0x30, 0x82] };
    assert_eq!(cert.render(), "RawCertificate { data: [30 82] }");
    assert_eq!(RawCertificate { data: &[] }.render(), "RawCertificate { data: [] }");
}

#[test]
fn key_exchanges() {
    let server = TlsServerKeyExchangeContents { parameters: &[0x03, 0x00, 0x17] };
    assert_eq!(server.render(), "TlsServerKeyExchangeContents { parameters: [03 00 17] }");
    let client = TlsClientKeyExchangeContents { parameters: &[0x41] };
    assert_eq!(client.render(), "TlsClientKeyExchangeContents { parameters: [41] }");
}

#[test]
fn record_header() {
    let header = TlsRecordHeader { record_type: 0x16, version: 0x0303, len: 512 };
    assert_eq!(header.render(), "TlsRecordHeader { type: 0x16, version: 0x0303, len: 512 }");
}

#[test]
fn record_header_at_the_limits() {
    let least = TlsRecordHeader { record_type: 0, version: 0, len: 0 };
    assert_eq!(least.render(), "TlsRecordHeader { type: 0x00, version: 0x0000, len: 0 }");
    let most = TlsRecordHeader { record_type: 0xff, version: 0xffff, len: 0xffff };
    assert_eq!(most.render(), "TlsRecordHeader { type: 0xff, version: 0xffff, len: 65535 }");
}
