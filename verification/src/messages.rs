//! Records and handshake messages, each as a named list of its fields.

use vstd::prelude::*;
use vstd::string::*;
use crate::hex::{hex_u16_text, hex_u8_text, push_hex_u16, push_hex_u8, HexU8};
use crate::registry::Registries;
use crate::resolve::{cipher_text, CipherU16};
use crate::strings::write_comma_list;
use crate::text::{
    bytes_of, comma_list, decimal, hex_list, occurs_in, occurs_in_wider, opt_hex_list,
    part_occurs_in_list, push_decimal, push_hex_list, push_opt_hex_list,
};

verus! {

/// Each cipher suite identifier in its tagged form.
pub open spec fn cipher_items(names: Map<u16, Seq<char>>, ciphers: Seq<u16>) -> Seq<Seq<char>> {
    Seq::new(ciphers.len(), |i: int| cipher_text(names, ciphers[i]))
}

/// Each byte as `0x` and two digits.
pub open spec fn hex_u8_items(values: Seq<u8>) -> Seq<Seq<char>> {
    Seq::new(values.len(), |i: int| hex_u8_text(values[i]))
}

/// Writes cipher suite identifiers as a list, in their order.
fn write_cipher_list(ciphers: &Vec<u16>, reg: &Registries) -> (s: String)
    ensures
        s@ == comma_list(cipher_items(reg.cipher_suites@, ciphers@)),
{
    let mut parts: Vec<String> = Vec::new();
    let n = ciphers.len();
    let mut i: usize = 0;
    while i < n
        invariant
            i <= n,
            n == ciphers@.len(),
            parts@.len() == i,
            forall|k: int|
                0 <= k < i ==> (#[trigger] parts@[k])@ == cipher_text(
                    reg.cipher_suites@,
                    ciphers@[k],
                ),
        decreases n - i,
    {
        let part = CipherU16 { d: ciphers[i] }.render(reg);
        parts.push(part);
        i += 1;
    }
    assert(parts.deep_view() =~= cipher_items(reg.cipher_suites@, ciphers@));
    write_comma_list(&parts)
}

/// Writes bytes as a list of `0x` values, in their order.
fn write_hex_u8_list(values: &Vec<u8>) -> (s: String)
    ensures
        s@ == comma_list(hex_u8_items(values@)),
{
    let mut parts: Vec<String> = Vec::new();
    let n = values.len();
    let mut i: usize = 0;
    while i < n
        invariant
            i <= n,
            n == values@.len(),
            parts@.len() == i,
            forall|k: int| 0 <= k < i ==> (#[trigger] parts@[k])@ == hex_u8_text(values@[k]),
        decreases n - i,
    {
        let part = HexU8 { d: values[i] }.render();
        parts.push(part);
        i += 1;
    }
    assert(parts.deep_view() =~= hex_u8_items(values@));
    write_comma_list(&parts)
}

/// The header of a record: its type, the protocol version and the length
/// that the header announces.
pub struct TlsRecordHeader {
    pub record_type: u8,
    pub version: u16,
    pub len: u16,
}

impl TlsRecordHeader {
    /// The text of this value, character by character.
    pub open spec fn text(&self) -> Seq<char> {
        "TlsRecordHeader { type: "@ + hex_u8_text(self.record_type) + ", version: "@
            + hex_u16_text(self.version) + ", len: "@ + decimal(self.len as nat) + " }"@
    }

    /// The length is shown as it was decoded; it is not held against any payload.
    pub fn render(&self) -> (s: String)
        ensures
            s@ == self.text(),
    {
        let mut out = String::new();
        out.append("TlsRecordHeader { type: ");
        push_hex_u8(&mut out, self.record_type);
        out.append(", version: ");
        push_hex_u16(&mut out, self.version);
        out.append(", len: ");
        push_decimal(&mut out, self.len as u128);
        out.append(" }");
        assert(out@ =~= self.text());
        out
    }
}

/// A ClientHello message.
pub struct TlsClientHelloContents<'a> {
    pub version: u16,
    pub rand_time: u32,
    pub rand_data: &'a [u8],
    pub session_id: Option<&'a [u8]>,
    pub ciphers: Vec<u16>,
    pub comp: Vec<u8>,
    pub ext: Option<&'a [u8]>,
}

impl<'a> TlsClientHelloContents<'a> {
    /// The text of this value, character by character.
    pub open spec fn text(&self, cipher_names: Map<u16, Seq<char>>) -> Seq<char> {
        "TlsClientHelloContents { version: "@ + hex_u16_text(self.version) + ", rand_time: "@
            + decimal(self.rand_time as nat) + ", rand_data: "@ + hex_list(self.rand_data@)
            + ", session_id: "@ + opt_hex_list(bytes_of(self.session_id)) + ", ciphers: "@
            + comma_list(cipher_items(cipher_names, self.ciphers@)) + ", comp: "@ + comma_list(
            hex_u8_items(self.comp@),
        ) + ", ext: "@ + opt_hex_list(bytes_of(self.ext)) + " }"@
    }

    /// Writes the text of this value.
    pub fn render(&self, reg: &Registries) -> (s: String)
        ensures
            s@ == self.text(reg.cipher_suites@),
    {
        let ciphers = write_cipher_list(&self.ciphers, reg);
        let comp = write_hex_u8_list(&self.comp);
        let mut out = String::new();
        out.append("TlsClientHelloContents { version: ");
        push_hex_u16(&mut out, self.version);
        out.append(", rand_time: ");
        push_decimal(&mut out, self.rand_time as u128);
        out.append(", rand_data: ");
        push_hex_list(&mut out, self.rand_data);
        out.append(", session_id: ");
        push_opt_hex_list(&mut out, self.session_id);
        out.append(", ciphers: ");
        out.append(ciphers.as_str());
        out.append(", comp: ");
        out.append(comp.as_str());
        out.append(", ext: ");
        push_opt_hex_list(&mut out, self.ext);
        out.append(" }");
        assert(out@ =~= self.text(reg.cipher_suites@));
        out
    }
}

/// Every cipher suite of a ClientHello has its text in the text of the message.
pub proof fn client_hello_shows_every_cipher(
    hello: TlsClientHelloContents,
    cipher_names: Map<u16, Seq<char>>,
    i: int,
)
    requires
        0 <= i < hello.ciphers@.len(),
    ensures
        occurs_in(cipher_text(cipher_names, hello.ciphers@[i]), hello.text(cipher_names)),
{
    let items = cipher_items(cipher_names, hello.ciphers@);
    let before = "TlsClientHelloContents { version: "@ + hex_u16_text(hello.version)
        + ", rand_time: "@ + decimal(hello.rand_time as nat) + ", rand_data: "@ + hex_list(
        hello.rand_data@,
    ) + ", session_id: "@ + opt_hex_list(bytes_of(hello.session_id)) + ", ciphers: "@;
    let after = ", comp: "@ + comma_list(hex_u8_items(hello.comp@)) + ", ext: "@ + opt_hex_list(
        bytes_of(hello.ext),
    ) + " }"@;
    part_occurs_in_list(items, i);
    occurs_in_wider(items[i], before, comma_list(items), after);
    assert(hello.text(cipher_names) =~= before + comma_list(items) + after);
}

/// A ServerHello message of TLS 1.2 and earlier.
pub struct TlsServerHelloContents<'a> {
    pub version: u16,
    pub rand_time: u32,
    pub rand_data: &'a [u8],
    pub session_id: Option<&'a [u8]>,
    pub cipher: u16,
    pub compression: u8,
    pub ext: Option<&'a [u8]>,
}

impl<'a> TlsServerHelloContents<'a> {
    /// The text of this value, character by character.
    pub open spec fn text(&self, cipher_names: Map<u16, Seq<char>>) -> Seq<char> {
        "TlsServerHelloContents { version: "@ + hex_u16_text(self.version) + ", rand_time: "@
            + decimal(self.rand_time as nat) + ", rand_data: "@ + hex_list(self.rand_data@)
            + ", session_id: "@ + opt_hex_list(bytes_of(self.session_id)) + ", cipher: "@
            + cipher_text(cipher_names, self.cipher) + ", compression: "@ + hex_u8_text(
            self.compression,
        ) + ", ext: "@ + opt_hex_list(bytes_of(self.ext)) + " }"@
    }

    /// Writes the text of this value.
    pub fn render(&self, reg: &Registries) -> (s: String)
        ensures
            s@ == self.text(reg.cipher_suites@),
    {
        let cipher = CipherU16 { d: self.cipher }.render(reg);
        let mut out = String::new();
        out.append("TlsServerHelloContents { version: ");
        push_hex_u16(&mut out, self.version);
        out.append(", rand_time: ");
        push_decimal(&mut out, self.rand_time as u128);
        out.append(", rand_data: ");
        push_hex_list(&mut out, self.rand_data);
        out.append(", session_id: ");
        push_opt_hex_list(&mut out, self.session_id);
        out.append(", cipher: ");
        out.append(cipher.as_str());
        out.append(", compression: ");
        push_hex_u8(&mut out, self.compression);
        out.append(", ext: ");
        push_opt_hex_list(&mut out, self.ext);
        out.append(" }");
        assert(out@ =~= self.text(reg.cipher_suites@));
        out
    }
}

/// A ServerHello message of TLS 1.3.
pub struct TlsServerHelloV13Contents<'a> {
    pub version: u16,
    pub random: &'a [u8],
    pub cipher: u16,
    pub ext: Option<&'a [u8]>,
}

impl<'a> TlsServerHelloV13Contents<'a> {
    /// The text of this value, character by character.
    pub open spec fn text(&self, cipher_names: Map<u16, Seq<char>>) -> Seq<char> {
        "TlsServerHelloV13Contents { version: "@ + hex_u16_text(self.version) + ", random: "@
            + hex_list(self.random@) + ", cipher: "@ + cipher_text(cipher_names, self.cipher)
            + ", ext: "@ + opt_hex_list(bytes_of(self.ext)) + " }"@
    }

    /// Writes the text of this value.
    pub fn render(&self, reg: &Registries) -> (s: String)
        ensures
            s@ == self.text(reg.cipher_suites@),
    {
        let cipher = CipherU16 { d: self.cipher }.render(reg);
        let mut out = String::new();
        out.append("TlsServerHelloV13Contents { version: ");
        push_hex_u16(&mut out, self.version);
        out.append(", random: ");
        push_hex_list(&mut out, self.random);
        out.append(", cipher: ");
        out.append(cipher.as_str());
        out.append(", ext: ");
        push_opt_hex_list(&mut out, self.ext);
        out.append(" }");
        assert(out@ =~= self.text(reg.cipher_suites@));
        out
    }
}

/// A HelloRetryRequest message.
pub struct TlsHelloRetryContents<'a> {
    pub version: u16,
    pub ext: Option<&'a [u8]>,
}

impl<'a> TlsHelloRetryContents<'a> {
    /// The text of this value, character by character.
    pub open spec fn text(&self) -> Seq<char> {
        "TlsHelloRetryContents { version: "@ + hex_u16_text(self.version) + ", ext: "@
            + opt_hex_list(bytes_of(self.ext)) + " }"@
    }

    /// Writes the text of this value.
    pub fn render(&self) -> (s: String)
        ensures
            s@ == self.text(),
    {
        let mut out = String::new();
        out.append("TlsHelloRetryContents { version: ");
        push_hex_u16(&mut out, self.version);
        out.append(", ext: ");
        push_opt_hex_list(&mut out, self.ext);
        out.append(" }");
        assert(out@ =~= self.text());
        out
    }
}

/// One certificate of a chain, as it was sent.
pub struct RawCertificate<'a> {
    pub data: &'a [u8],
}

impl<'a> RawCertificate<'a> {
    /// The text of this value, character by character.
    pub open spec fn text(&self) -> Seq<char> {
        "RawCertificate { data: "@ + hex_list(self.data@) + " }"@
    }

    /// Writes the text of this value.
    pub fn render(&self) -> (s: String)
        ensures
            s@ == self.text(),
    {
        let mut out = String::new();
        out.append("RawCertificate { data: ");
        push_hex_list(&mut out, self.data);
        out.append(" }");
        assert(out@ =~= self.text());
        out
    }
}

/// A ServerKeyExchange message, with its parameters as they were sent.
pub struct TlsServerKeyExchangeContents<'a> {
    pub parameters: &'a [u8],
}

impl<'a> TlsServerKeyExchangeContents<'a> {
    /// The text of this value, character by character.
    pub open spec fn text(&self) -> Seq<char> {
        "TlsServerKeyExchangeContents { parameters: "@ + hex_list(self.parameters@) + " }"@
    }

    /// Writes the text of this value.
    pub fn render(&self) -> (s: String)
        ensures
            s@ == self.text(),
    {
        let mut out = String::new();
        out.append("TlsServerKeyExchangeContents { parameters: ");
        push_hex_list(&mut out, self.parameters);
        out.append(" }");
        assert(out@ =~= self.text());
        out
    }
}

/// A ClientKeyExchange message, with its parameters as they were sent.
pub struct TlsClientKeyExchangeContents<'a> {
    pub parameters: &'a [u8],
}

impl<'a> TlsClientKeyExchangeContents<'a> {
    /// The text of this value, character by character.
    pub open spec fn text(&self) -> Seq<char> {
        "TlsClientKeyExchangeContents { parameters: "@ + hex_list(self.parameters@) + " }"@
    }

    /// Writes the text of this value.
    pub fn render(&self) -> (s: String)
        ensures
            s@ == self.text(),
    {
        let mut out = String::new();
        out.append("TlsClientKeyExchangeContents { parameters: ");
        push_hex_list(&mut out, self.parameters);
        out.append(" }");
        assert(out@ =~= self.text());
        out
    }
}

} // verus!
