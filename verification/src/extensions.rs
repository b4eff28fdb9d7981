//! Hello extensions: one rule of text per kind of extension.
//!
//! A payload of bytes is shown as a hexadecimal list. A list of codes or of
//! names is shown element by element, each resolved or decoded on its own, so
//! that one unknown code or one malformed name changes its own entry only.

use vstd::prelude::*;
use vstd::string::*;
use crate::registry::{Registries, RegistryKind};
use crate::resolve::{hash_text, named_group_text, resolve_and_render, sign_text};
use crate::strings::{
    debug_quoted, decode_field, field_text, pair_text, placeholder, quote, quoted_items,
    write_comma_list, write_pair, write_quoted_list,
};
use crate::text::{
    comma_list, decimal, hex_list, occurs_in, occurs_in_chain, occurs_in_middle, occurs_in_wider,
    part_occurs_in_list, push_decimal, push_hex_list, push_short_hex, short_hex,
};
use vstd::utf8::{decode_utf8, valid_utf8};

verus! {

/// An extension of a hello message, decoded as far as its kind is known.
pub enum TlsExtension<'a> {
    SNI(Vec<(u8, &'a [u8])>),
    MaxFragmentLength(u8),
    StatusRequest(&'a [u8]),
    EllipticCurves(Vec<u16>),
    EcPointFormats(&'a [u8]),
    SignatureAlgorithms(Vec<(u8, u8)>),
    SessionTicket(&'a [u8]),
    KeyShare(&'a [u8]),
    PreSharedKey(&'a [u8]),
    EarlyData,
    SupportedVersions(Vec<u16>),
    Cookie(&'a [u8]),
    PskExchangeModes(Vec<u8>),
    Heartbeat(u8),
    ALPN(Vec<&'a [u8]>),
    SignedCertificateTimestamp(&'a [u8]),
    Padding(&'a [u8]),
    EncryptThenMac,
    ExtendedMasterSecret,
    NextProtocolNegotiation,
    RenegotiationInfo(&'a [u8]),
    /// An extension of a kind that is not decoded: its type and its payload.
    Unknown(u16, &'a [u8]),
}

/// Server names with the bytes of each name.
pub open spec fn sni_entries(entries: Seq<(u8, &[u8])>) -> Seq<(u8, Seq<u8>)> {
    Seq::new(entries.len(), |i: int| (entries[i].0, entries[i].1@))
}

/// Protocol names, each as its bytes.
pub open spec fn protocol_names(protocols: Seq<&[u8]>) -> Seq<Seq<u8>> {
    Seq::new(protocols.len(), |i: int| protocols[i]@)
}

/// One server name: the type of the name in hexadecimal, and the name as text.
pub open spec fn sni_entry_text(kind: u8, name: Seq<u8>) -> Seq<char> {
    "type="@ + short_hex(kind as nat) + ",name="@ + field_text(name)
}

/// Each server name as text.
pub open spec fn sni_items(entries: Seq<(u8, Seq<u8>)>) -> Seq<Seq<char>> {
    Seq::new(entries.len(), |i: int| sni_entry_text(entries[i].0, entries[i].1))
}

/// Each named group as its label.
pub open spec fn group_items(names: Map<u16, Seq<char>>, groups: Seq<u16>) -> Seq<Seq<char>> {
    Seq::new(groups.len(), |i: int| named_group_text(names, groups[i]))
}

/// Each pair of hash and signature algorithm as a pair of quoted labels.
pub open spec fn algorithm_items(
    hash_names: Map<u16, Seq<char>>,
    sign_names: Map<u16, Seq<char>>,
    pairs: Seq<(u8, u8)>,
) -> Seq<Seq<char>> {
    Seq::new(
        pairs.len(),
        |i: int|
            pair_text(
                debug_quoted(hash_text(hash_names, pairs[i].0)),
                debug_quoted(sign_text(sign_names, pairs[i].1)),
            ),
    )
}

/// Each protocol version as `0x` and its hexadecimal digits.
pub open spec fn version_items(versions: Seq<u16>) -> Seq<Seq<char>> {
    Seq::new(versions.len(), |i: int| short_hex(versions[i] as nat))
}

/// Each byte as a decimal number.
pub open spec fn decimal_items(values: Seq<u8>) -> Seq<Seq<char>> {
    Seq::new(values.len(), |i: int| decimal(values[i] as nat))
}

/// Each protocol name as text.
pub open spec fn protocol_items(protocols: Seq<Seq<u8>>) -> Seq<Seq<char>> {
    Seq::new(protocols.len(), |i: int| field_text(protocols[i]))
}

/// The text of an extension that has no payload, or `tag` alone.
pub open spec fn marker_text(tag: Seq<char>) -> Seq<char> {
    "TlsExtension::"@ + tag
}

/// The text of an extension with a payload: the tag, and the payload in
/// parentheses.
pub open spec fn tagged_payload(tag: Seq<char>, payload: Seq<char>) -> Seq<char> {
    "TlsExtension::"@ + tag + "("@ + payload + ")"@
}

/// The text of an extension whose payload is bytes under the name `data`.
pub open spec fn data_payload(tag: Seq<char>, data: Seq<u8>) -> Seq<char> {
    tagged_payload(tag, "data="@ + hex_list(data))
}

/// The text of an extension of unknown kind: its type in hexadecimal and its
/// payload, both in full.
pub open spec fn unknown_text(id: u16, data: Seq<u8>) -> Seq<char> {
    tagged_payload("Unknown"@, "id="@ + short_hex(id as nat) + ",data="@ + hex_list(data))
}

impl<'a> TlsExtension<'a> {
    /// The text of this value, character by character.
    pub open spec fn text(
        &self,
        group_names: Map<u16, Seq<char>>,
        hash_names: Map<u16, Seq<char>>,
        sign_names: Map<u16, Seq<char>>,
    ) -> Seq<char> {
        match *self {
            TlsExtension::SNI(v) => tagged_payload(
                "SNI"@,
                comma_list(quoted_items(sni_items(sni_entries(v@)))),
            ),
            TlsExtension::MaxFragmentLength(l) => tagged_payload(
                "MaxFragmentLength"@,
                decimal(l as nat),
            ),
            TlsExtension::StatusRequest(data) => tagged_payload("StatusRequest"@, hex_list(data@)),
            TlsExtension::EllipticCurves(v) => tagged_payload(
                "EllipticCurves"@,
                comma_list(quoted_items(group_items(group_names, v@))),
            ),
            TlsExtension::EcPointFormats(v) => tagged_payload("EcPointFormats"@, hex_list(v@)),
            TlsExtension::SignatureAlgorithms(v) => tagged_payload(
                "SignatureAlgorithms"@,
                comma_list(algorithm_items(hash_names, sign_names, v@)),
            ),
            TlsExtension::SessionTicket(data) => data_payload("SessionTicket"@, data@),
            TlsExtension::KeyShare(data) => data_payload("KeyShare"@, data@),
            TlsExtension::PreSharedKey(data) => data_payload("PreSharedKey"@, data@),
            TlsExtension::EarlyData => marker_text("EarlyData"@),
            TlsExtension::SupportedVersions(v) => tagged_payload(
                "SupportedVersions"@,
                "v="@ + comma_list(quoted_items(version_items(v@))),
            ),
            TlsExtension::Cookie(data) => data_payload("Cookie"@, data@),
            TlsExtension::PskExchangeModes(v) => tagged_payload(
                "PskExchangeModes"@,
                comma_list(decimal_items(v@)),
            ),
            TlsExtension::Heartbeat(mode) => tagged_payload("Heartbeat"@, decimal(mode as nat)),
            TlsExtension::ALPN(v) => tagged_payload(
                "ALPN"@,
                comma_list(quoted_items(protocol_items(protocol_names(v@)))),
            ),
            TlsExtension::SignedCertificateTimestamp(data) => data_payload(
                "SignedCertificateTimestamp"@,
                data@,
            ),
            TlsExtension::Padding(data) => data_payload("Padding"@, data@),
            TlsExtension::EncryptThenMac => marker_text("EncryptThenMac"@),
            TlsExtension::ExtendedMasterSecret => marker_text("ExtendedMasterSecret"@),
            TlsExtension::NextProtocolNegotiation => marker_text("NextProtocolNegotiation"@),
            TlsExtension::RenegotiationInfo(data) => data_payload("RenegotiationInfo"@, data@),
            TlsExtension::Unknown(id, data) => unknown_text(id, data@),
        }
    }

    /// Never fails: a name that is not UTF-8, a code that no table knows and
    /// an extension of unknown kind each have their text.
    pub fn render(&self, reg: &Registries) -> (s: String)
        ensures
            s@ == self.text(reg.named_groups@, reg.hash_algorithms@, reg.sign_algorithms@),
    {
        match self {
            TlsExtension::SNI(v) => {
                let list = write_sni_list(v);
                write_tagged("SNI", list.as_str())
            },
            TlsExtension::MaxFragmentLength(l) => {
                let mut payload = String::new();
                push_decimal(&mut payload, *l as u128);
                write_tagged("MaxFragmentLength", payload.as_str())
            },
            TlsExtension::StatusRequest(data) => {
                let mut payload = String::new();
                push_hex_list(&mut payload, data);
                write_tagged("StatusRequest", payload.as_str())
            },
            TlsExtension::EllipticCurves(v) => {
                let list = write_group_list(v, reg);
                write_tagged("EllipticCurves", list.as_str())
            },
            TlsExtension::EcPointFormats(v) => {
                let mut payload = String::new();
                push_hex_list(&mut payload, v);
                write_tagged("EcPointFormats", payload.as_str())
            },
            TlsExtension::SignatureAlgorithms(v) => {
                let list = write_algorithm_list(v, reg);
                write_tagged("SignatureAlgorithms", list.as_str())
            },
            TlsExtension::SessionTicket(data) => write_data("SessionTicket", data),
            TlsExtension::KeyShare(data) => write_data("KeyShare", data),
            TlsExtension::PreSharedKey(data) => write_data("PreSharedKey", data),
            TlsExtension::EarlyData => write_marker("EarlyData"),
            TlsExtension::SupportedVersions(v) => {
                let list = write_version_list(v);
                let mut payload = String::new();
                payload.append("v=");
                payload.append(list.as_str());
                write_tagged("SupportedVersions", payload.as_str())
            },
            TlsExtension::Cookie(data) => write_data("Cookie", data),
            TlsExtension::PskExchangeModes(v) => {
                let list = write_decimal_list(v);
                write_tagged("PskExchangeModes", list.as_str())
            },
            TlsExtension::Heartbeat(mode) => {
                let mut payload = String::new();
                push_decimal(&mut payload, *mode as u128);
                write_tagged("Heartbeat", payload.as_str())
            },
            TlsExtension::ALPN(v) => {
                let list = write_protocol_list(v);
                write_tagged("ALPN", list.as_str())
            },
            TlsExtension::SignedCertificateTimestamp(data) => write_data(
                "SignedCertificateTimestamp",
                data,
            ),
            TlsExtension::Padding(data) => write_data("Padding", data),
            TlsExtension::EncryptThenMac => write_marker("EncryptThenMac"),
            TlsExtension::ExtendedMasterSecret => write_marker("ExtendedMasterSecret"),
            TlsExtension::NextProtocolNegotiation => write_marker("NextProtocolNegotiation"),
            TlsExtension::RenegotiationInfo(data) => write_data("RenegotiationInfo", data),
            TlsExtension::Unknown(id, data) => {
                let mut payload = String::new();
                payload.append("id=");
                push_short_hex(&mut payload, *id);
                payload.append(",data=");
                push_hex_list(&mut payload, data);
                write_tagged("Unknown", payload.as_str())
            },
        }
    }
}

/// Each extension as text, with the tables that its codes resolve against.
pub open spec fn extension_items(
    extensions: Seq<TlsExtension>,
    group_names: Map<u16, Seq<char>>,
    hash_names: Map<u16, Seq<char>>,
    sign_names: Map<u16, Seq<char>>,
) -> Seq<Seq<char>> {
    Seq::new(extensions.len(), |i: int| extensions[i].text(group_names, hash_names, sign_names))
}

/// Writes a list of extensions, each in full and in its place.
pub fn render_extensions(extensions: &Vec<TlsExtension>, reg: &Registries) -> (s: String)
    ensures
        s@ == comma_list(
            extension_items(
                extensions@,
                reg.named_groups@,
                reg.hash_algorithms@,
                reg.sign_algorithms@,
            ),
        ),
{
    let mut parts: Vec<String> = Vec::new();
    let n = extensions.len();
    let mut i: usize = 0;
    while i < n
        invariant
            i <= n,
            n == extensions@.len(),
            parts@.len() == i,
            forall|k: int|
                0 <= k < i ==> (#[trigger] parts@[k])@ == extensions@[k].text(
                    reg.named_groups@,
                    reg.hash_algorithms@,
                    reg.sign_algorithms@,
                ),
        decreases n - i,
    {
        let part = extensions[i].render(reg);
        parts.push(part);
        i += 1;
    }
    assert(parts.deep_view() =~= extension_items(
        extensions@,
        reg.named_groups@,
        reg.hash_algorithms@,
        reg.sign_algorithms@,
    ));
    write_comma_list(&parts)
}

/// The text of an extension of unknown kind holds its type in hexadecimal
/// and every byte of its payload.
pub proof fn unknown_keeps_type_and_payload(id: u16, data: Seq<u8>)
    ensures
        occurs_in(short_hex(id as nat), unknown_text(id, data)),
        occurs_in(hex_list(data), unknown_text(id, data)),
{
    let text = unknown_text(id, data);
    let head = "TlsExtension::"@ + "Unknown"@ + "("@ + "id="@;
    let kind = short_hex(id as nat);
    occurs_in_middle(head, kind, ",data="@ + hex_list(data) + ")"@);
    assert(text =~= head + kind + (",data="@ + hex_list(data) + ")"@));
    occurs_in_middle(head + kind + ",data="@, hex_list(data), ")"@);
    assert(text =~= head + kind + ",data="@ + hex_list(data) + ")"@);
}

/// In the text of a list of extensions, an extension of unknown kind keeps
/// its type and its payload, wherever it stands in the list.
pub proof fn list_keeps_unknown_extension(
    extensions: Seq<TlsExtension>,
    group_names: Map<u16, Seq<char>>,
    hash_names: Map<u16, Seq<char>>,
    sign_names: Map<u16, Seq<char>>,
    i: int,
)
    requires
        0 <= i < extensions.len(),
        extensions[i] is Unknown,
    ensures
        occurs_in(
            short_hex(extensions[i]->Unknown_0 as nat),
            comma_list(extension_items(extensions, group_names, hash_names, sign_names)),
        ),
        occurs_in(
            hex_list(extensions[i]->Unknown_1@),
            comma_list(extension_items(extensions, group_names, hash_names, sign_names)),
        ),
{
    let items = extension_items(extensions, group_names, hash_names, sign_names);
    let id = extensions[i]->Unknown_0;
    let data = extensions[i]->Unknown_1@;
    assert(items[i] == unknown_text(id, data));
    unknown_keeps_type_and_payload(id, data);
    part_occurs_in_list(items, i);
    occurs_in_chain(short_hex(id as nat), items[i], comma_list(items));
    occurs_in_chain(hex_list(data), items[i], comma_list(items));
}

/// Whatever the other server names are, a name that is not UTF-8 is shown as
/// the placeholder, in its own entry, and every name has its entry.
pub proof fn malformed_name_keeps_its_entry(entries: Seq<(u8, Seq<u8>)>, i: int)
    requires
        0 <= i < entries.len(),
        !valid_utf8(entries[i].1),
    ensures
        sni_items(entries).len() == entries.len(),
        sni_items(entries)[i] == "type="@ + short_hex(entries[i].0 as nat) + ",name="@
            + placeholder(),
        forall|k: int|
            0 <= k < entries.len() && valid_utf8(entries[k].1) ==> #[trigger] sni_items(entries)[k]
                == "type="@ + short_hex(entries[k].0 as nat) + ",name="@ + decode_utf8(
                entries[k].1,
            ),
{
}

/// Every server name has its quoted entry in the text of the extension,
/// whether or not the other names are well-formed.
pub proof fn every_server_name_is_shown(entries: Seq<(u8, Seq<u8>)>, i: int)
    requires
        0 <= i < entries.len(),
    ensures
        occurs_in(
            debug_quoted(sni_entry_text(entries[i].0, entries[i].1)),
            tagged_payload("SNI"@, comma_list(quoted_items(sni_items(entries)))),
        ),
{
    let quoted = quoted_items(sni_items(entries));
    assert(quoted[i] == debug_quoted(sni_entry_text(entries[i].0, entries[i].1)));
    part_occurs_in_list(quoted, i);
    occurs_in_wider(quoted[i], "TlsExtension::"@ + "SNI"@ + "("@, comma_list(quoted), ")"@);
}

/// Every protocol name has its quoted entry in the text of the extension,
/// whether or not the other names are well-formed.
pub proof fn every_protocol_name_is_shown(protocols: Seq<Seq<u8>>, i: int)
    requires
        0 <= i < protocols.len(),
    ensures
        occurs_in(
            debug_quoted(field_text(protocols[i])),
            tagged_payload("ALPN"@, comma_list(quoted_items(protocol_items(protocols)))),
        ),
{
    let quoted = quoted_items(protocol_items(protocols));
    assert(quoted[i] == debug_quoted(field_text(protocols[i])));
    part_occurs_in_list(quoted, i);
    occurs_in_wider(quoted[i], "TlsExtension::"@ + "ALPN"@ + "("@, comma_list(quoted), ")"@);
}

/// Whatever the other protocol names are, a name that is not UTF-8 is shown
/// as the placeholder, in its own entry, and every name has its entry.
pub proof fn malformed_protocol_keeps_its_entry(protocols: Seq<Seq<u8>>, i: int)
    requires
        0 <= i < protocols.len(),
        !valid_utf8(protocols[i]),
    ensures
        protocol_items(protocols).len() == protocols.len(),
        protocol_items(protocols)[i] == placeholder(),
        forall|k: int|
            0 <= k < protocols.len() && valid_utf8(protocols[k]) ==> #[trigger] protocol_items(
                protocols,
            )[k] == decode_utf8(protocols[k]),
{
}

/// Writes one server name.
pub fn write_sni_entry(kind: u8, name: &[u8]) -> (s: String)
    ensures
        s@ == sni_entry_text(kind, name@),
{
    let mut out = String::new();
    out.append("type=");
    push_short_hex(&mut out, kind as u16);
    out.append(",name=");
    out.append(decode_field(name));
    assert(out@ =~= sni_entry_text(kind, name@));
    out
}

/// Writes a tag alone.
fn write_marker(tag: &str) -> (s: String)
    ensures
        s@ == marker_text(tag@),
{
    let mut out = String::new();
    out.append("TlsExtension::");
    out.append(tag);
    assert(out@ =~= marker_text(tag@));
    out
}

/// Writes a tag and a payload in parentheses.
fn write_tagged(tag: &str, payload: &str) -> (s: String)
    ensures
        s@ == tagged_payload(tag@, payload@),
{
    let mut out = String::new();
    out.append("TlsExtension::");
    out.append(tag);
    out.append("(");
    out.append(payload);
    out.append(")");
    assert(out@ =~= tagged_payload(tag@, payload@));
    out
}

/// Writes a tag and a payload of bytes under the name `data`.
fn write_data(tag: &str, data: &[u8]) -> (s: String)
    ensures
        s@ == data_payload(tag@, data@),
{
    let mut payload = String::new();
    payload.append("data=");
    push_hex_list(&mut payload, data);
    assert(payload@ =~= "data="@ + hex_list(data@));
    write_tagged(tag, payload.as_str())
}

/// Writes the list of server names.
fn write_sni_list(entries: &Vec<(u8, &[u8])>) -> (s: String)
    ensures
        s@ == comma_list(quoted_items(sni_items(sni_entries(entries@)))),
{
    let mut parts: Vec<String> = Vec::new();
    let n = entries.len();
    let mut i: usize = 0;
    while i < n
        invariant
            i <= n,
            n == entries@.len(),
            parts@.len() == i,
            forall|k: int|
                0 <= k < i ==> (#[trigger] parts@[k])@ == sni_entry_text(
                    entries@[k].0,
                    entries@[k].1@,
                ),
        decreases n - i,
    {
        let part = write_sni_entry(entries[i].0, entries[i].1);
        parts.push(part);
        i += 1;
    }
    assert(parts.deep_view() =~= sni_items(sni_entries(entries@)));
    write_quoted_list(&parts)
}

/// Writes the list of named groups.
fn write_group_list(groups: &Vec<u16>, reg: &Registries) -> (s: String)
    ensures
        s@ == comma_list(quoted_items(group_items(reg.named_groups@, groups@))),
{
    let mut parts: Vec<String> = Vec::new();
    let n = groups.len();
    let mut i: usize = 0;
    while i < n
        invariant
            i <= n,
            n == groups@.len(),
            parts@.len() == i,
            forall|k: int|
                0 <= k < i ==> (#[trigger] parts@[k])@ == named_group_text(
                    reg.named_groups@,
                    groups@[k],
                ),
        decreases n - i,
    {
        let part = resolve_and_render(reg, RegistryKind::NamedGroup, groups[i]);
        parts.push(part);
        i += 1;
    }
    assert(parts.deep_view() =~= group_items(reg.named_groups@, groups@));
    write_quoted_list(&parts)
}

/// Writes the list of pairs of hash and signature algorithm.
fn write_algorithm_list(pairs: &Vec<(u8, u8)>, reg: &Registries) -> (s: String)
    ensures
        s@ == comma_list(algorithm_items(reg.hash_algorithms@, reg.sign_algorithms@, pairs@)),
{
    let mut parts: Vec<String> = Vec::new();
    let n = pairs.len();
    let mut i: usize = 0;
    while i < n
        invariant
            i <= n,
            n == pairs@.len(),
            parts@.len() == i,
            forall|k: int|
                0 <= k < i ==> (#[trigger] parts@[k])@ == pair_text(
                    debug_quoted(hash_text(reg.hash_algorithms@, pairs@[k].0)),
                    debug_quoted(sign_text(reg.sign_algorithms@, pairs@[k].1)),
                ),
        decreases n - i,
    {
        let hash = resolve_and_render(reg, RegistryKind::HashAlgorithm, pairs[i].0 as u16);
        let sign = resolve_and_render(reg, RegistryKind::SignAlgorithm, pairs[i].1 as u16);
        let hash_quoted = quote(hash.as_str());
        let sign_quoted = quote(sign.as_str());
        let part = write_pair(hash_quoted.as_str(), sign_quoted.as_str());
        parts.push(part);
        i += 1;
    }
    assert(parts.deep_view() =~= algorithm_items(
        reg.hash_algorithms@,
        reg.sign_algorithms@,
        pairs@,
    ));
    write_comma_list(&parts)
}

/// Writes the list of protocol versions.
fn write_version_list(versions: &Vec<u16>) -> (s: String)
    ensures
        s@ == comma_list(quoted_items(version_items(versions@))),
{
    let mut parts: Vec<String> = Vec::new();
    let n = versions.len();
    let mut i: usize = 0;
    while i < n
        invariant
            i <= n,
            n == versions@.len(),
            parts@.len() == i,
            forall|k: int| 0 <= k < i ==> (#[trigger] parts@[k])@ == short_hex(versions@[k] as nat),
        decreases n - i,
    {
        let mut part = String::new();
        push_short_hex(&mut part, versions[i]);
        parts.push(part);
        i += 1;
    }
    assert(parts.deep_view() =~= version_items(versions@));
    write_quoted_list(&parts)
}

/// Writes bytes as a list of decimal numbers.
fn write_decimal_list(values: &Vec<u8>) -> (s: String)
    ensures
        s@ == comma_list(decimal_items(values@)),
{
    let mut parts: Vec<String> = Vec::new();
    let n = values.len();
    let mut i: usize = 0;
    while i < n
        invariant
            i <= n,
            n == values@.len(),
            parts@.len() == i,
            forall|k: int| 0 <= k < i ==> (#[trigger] parts@[k])@ == decimal(values@[k] as nat),
        decreases n - i,
    {
        let mut part = String::new();
        push_decimal(&mut part, values[i] as u128);
        parts.push(part);
        i += 1;
    }
    assert(parts.deep_view() =~= decimal_items(values@));
    write_comma_list(&parts)
}

/// Writes the list of protocol names.
fn write_protocol_list(protocols: &Vec<&[u8]>) -> (s: String)
    ensures
        s@ == comma_list(quoted_items(protocol_items(protocol_names(protocols@)))),
{
    let mut parts: Vec<String> = Vec::new();
    let n = protocols.len();
    let mut i: usize = 0;
    while i < n
        invariant
            i <= n,
            n == protocols@.len(),
            parts@.len() == i,
            forall|k: int| 0 <= k < i ==> (#[trigger] parts@[k])@ == field_text(protocols@[k]@),
        decreases n - i,
    {
        let part = decode_field(protocols[i]).to_owned();
        parts.push(part);
        i += 1;
    }
    assert(parts.deep_view() =~= protocol_items(protocol_names(protocols@)));
    write_quoted_list(&parts)
}

} // verus!
