//! Numeric codes resolved against a table of names.
//!
//! A code is written in one of two forms. The tagged form keeps the code in
//! front of its name: `0x1301(TLS_AES_128_GCM_SHA256)`. The label form is the
//! name alone. Either form has a fallback for a code that the table does not
//! know, and the fallback keeps the code.

use vstd::prelude::*;
use vstd::string::*;
use crate::hex::{hex_u16_text, push_hex_u16};
use crate::registry::{Registries, RegistryKind};
use crate::text::{
    decimal, occurs_in, occurs_in_middle, push_decimal, push_short_hex, short_hex,
};

verus! {

/// The word for a kind of code in the text of an unknown code.
pub open spec fn kind_word(kind: RegistryKind) -> Seq<char> {
    match kind {
        RegistryKind::CipherSuite => "cipher"@,
        RegistryKind::NamedGroup => "curve"@,
        RegistryKind::SignatureScheme => "signature scheme"@,
        RegistryKind::HashAlgorithm => "hash"@,
        RegistryKind::SignAlgorithm => "signature"@,
        RegistryKind::AlertSeverity => "severity"@,
    }
}

/// Cipher suites and signature schemes are written in the tagged form, the
/// other kinds in the label form.
pub open spec fn is_tagged(kind: RegistryKind) -> bool {
    kind is CipherSuite || kind is SignatureScheme
}

/// The tagged form of `code`: the code in four hexadecimal digits, then in
/// parentheses its name, or `Unknown` and the word for its kind.
pub open spec fn tagged_text(names: Map<u16, Seq<char>>, code: u16, word: Seq<char>) -> Seq<char> {
    if names.contains_key(code) {
        hex_u16_text(code) + "("@ + names[code] + ")"@
    } else {
        hex_u16_text(code) + "("@ + "Unknown"@ + " "@ + word + ")"@
    }
}

/// The label form of `code`: its name, or, inside angle brackets, `Unknown`,
/// the word for its kind and the code in hexadecimal and in decimal.
pub open spec fn label_text(names: Map<u16, Seq<char>>, code: u16, word: Seq<char>) -> Seq<char> {
    if names.contains_key(code) {
        names[code]
    } else {
        "<"@ + "Unknown"@ + " "@ + word + " "@ + short_hex(code as nat) + "/"@ + decimal(
            code as nat,
        ) + ">"@
    }
}

/// The text of a code of the given kind, resolved against the names of that kind.
pub open spec fn resolved_text(names: Map<u16, Seq<char>>, kind: RegistryKind, code: u16) -> Seq<
    char,
> {
    if is_tagged(kind) {
        tagged_text(names, code, kind_word(kind))
    } else {
        label_text(names, code, kind_word(kind))
    }
}

/// The text of a cipher suite identifier.
pub open spec fn cipher_text(names: Map<u16, Seq<char>>, code: u16) -> Seq<char> {
    resolved_text(names, RegistryKind::CipherSuite, code)
}

/// The text of a signature scheme identifier.
pub open spec fn signature_scheme_text(names: Map<u16, Seq<char>>, code: u16) -> Seq<char> {
    resolved_text(names, RegistryKind::SignatureScheme, code)
}

/// The text of a named group.
pub open spec fn named_group_text(names: Map<u16, Seq<char>>, code: u16) -> Seq<char> {
    resolved_text(names, RegistryKind::NamedGroup, code)
}

/// The text of a hash algorithm identifier.
pub open spec fn hash_text(names: Map<u16, Seq<char>>, code: u8) -> Seq<char> {
    resolved_text(names, RegistryKind::HashAlgorithm, code as u16)
}

/// The text of a signature algorithm identifier.
pub open spec fn sign_text(names: Map<u16, Seq<char>>, code: u8) -> Seq<char> {
    resolved_text(names, RegistryKind::SignAlgorithm, code as u16)
}

/// The text of an alert severity.
pub open spec fn severity_text(names: Map<u16, Seq<char>>, code: u8) -> Seq<char> {
    resolved_text(names, RegistryKind::AlertSeverity, code as u16)
}

/// A code that the table knows is shown with the name that the table gives
/// it. The tagged form also holds the code in hexadecimal; the label form is
/// the name and nothing else.
pub proof fn known_code_shows_its_name(names: Map<u16, Seq<char>>, kind: RegistryKind, code: u16)
    requires
        names.contains_key(code),
    ensures
        occurs_in(names[code], resolved_text(names, kind, code)),
        is_tagged(kind) ==> occurs_in(hex_u16_text(code), resolved_text(names, kind, code)),
        !is_tagged(kind) ==> resolved_text(names, kind, code) == names[code],
{
    let text = resolved_text(names, kind, code);
    let empty = Seq::<char>::empty();
    if is_tagged(kind) {
        occurs_in_middle(empty, hex_u16_text(code), "("@ + names[code] + ")"@);
        assert(text =~= empty + hex_u16_text(code) + ("("@ + names[code] + ")"@));
        occurs_in_middle(hex_u16_text(code) + "("@, names[code], ")"@);
    } else {
        occurs_in_middle(empty, names[code], empty);
        assert(text =~= empty + names[code] + empty);
    }
}

/// A code that the table does not know is shown with the word `Unknown` and
/// keeps its value: the tagged form holds the code in hexadecimal, which for
/// a code below ten is its decimal form too; the label form holds it both in
/// hexadecimal and in decimal.
pub proof fn unknown_code_keeps_its_value(
    names: Map<u16, Seq<char>>,
    kind: RegistryKind,
    code: u16,
)
    requires
        !names.contains_key(code),
    ensures
        occurs_in("Unknown"@, resolved_text(names, kind, code)),
        is_tagged(kind) ==> occurs_in(hex_u16_text(code), resolved_text(names, kind, code)),
        !is_tagged(kind) ==> occurs_in(short_hex(code as nat), resolved_text(names, kind, code)),
        !is_tagged(kind) || code < 10 ==> occurs_in(
            decimal(code as nat),
            resolved_text(names, kind, code),
        ),
{
    let text = resolved_text(names, kind, code);
    let word = kind_word(kind);
    if is_tagged(kind) {
        let empty = Seq::<char>::empty();
        let tail = "("@ + "Unknown"@ + " "@ + word + ")"@;
        occurs_in_middle(empty, hex_u16_text(code), tail);
        assert(text =~= empty + hex_u16_text(code) + tail);
        occurs_in_middle(hex_u16_text(code) + "("@, "Unknown"@, " "@ + word + ")"@);
        assert(text =~= hex_u16_text(code) + "("@ + "Unknown"@ + (" "@ + word + ")"@));
        if code < 10 {
            let zeros = hex_u16_text(code).subrange(0, 5);
            assert(hex_u16_text(code) =~= zeros + decimal(code as nat));
            occurs_in_middle(zeros, decimal(code as nat), tail);
            assert(text =~= zeros + decimal(code as nat) + tail);
        }
    } else {
        let hexa = short_hex(code as nat);
        let deci = decimal(code as nat);
        occurs_in_middle("<"@, "Unknown"@, " "@ + word + " "@ + hexa + "/"@ + deci + ">"@);
        assert(text =~= "<"@ + "Unknown"@ + (" "@ + word + " "@ + hexa + "/"@ + deci + ">"@));
        occurs_in_middle("<"@ + "Unknown"@ + " "@ + word + " "@, hexa, "/"@ + deci + ">"@);
        assert(text =~= "<"@ + "Unknown"@ + " "@ + word + " "@ + hexa + ("/"@ + deci + ">"@));
        occurs_in_middle("<"@ + "Unknown"@ + " "@ + word + " "@ + hexa + "/"@, deci, ">"@);
    }
}

/// The word for a kind of code.
fn word_of(kind: RegistryKind) -> (word: &'static str)
    ensures
        word@ == kind_word(kind),
{
    match kind {
        RegistryKind::CipherSuite => "cipher",
        RegistryKind::NamedGroup => "curve",
        RegistryKind::SignatureScheme => "signature scheme",
        RegistryKind::HashAlgorithm => "hash",
        RegistryKind::SignAlgorithm => "signature",
        RegistryKind::AlertSeverity => "severity",
    }
}

/// Writes a code of the given kind: resolved where its table knows it, and
/// with its value and the word `Unknown` where not. Never fails.
pub fn resolve_and_render(reg: &Registries, kind: RegistryKind, code: u16) -> (s: String)
    ensures
        s@ == resolved_text(reg.names(kind), kind, code),
{
    let word = word_of(kind);
    let name = reg.resolve(kind, code);
    let mut out = String::new();
    match kind {
        RegistryKind::CipherSuite | RegistryKind::SignatureScheme => {
            push_hex_u16(&mut out, code);
            out.append("(");
            match name {
                Some(name) => {
                    out.append(name);
                },
                None => {
                    out.append("Unknown");
                    out.append(" ");
                    out.append(word);
                },
            }
            out.append(")");
            assert(out@ =~= tagged_text(reg.names(kind), code, kind_word(kind)));
        },
        _ => {
            match name {
                Some(name) => {
                    out.append(name);
                },
                None => {
                    out.append("<");
                    out.append("Unknown");
                    out.append(" ");
                    out.append(word);
                    out.append(" ");
                    push_short_hex(&mut out, code);
                    out.append("/");
                    push_decimal(&mut out, code as u128);
                    out.append(">");
                },
            }
            assert(out@ =~= label_text(reg.names(kind), code, kind_word(kind)));
        },
    }
    out
}

/// A cipher suite identifier, shown with its name.
pub struct CipherU16 {
    pub d: u16,
}

impl CipherU16 {
    /// The text of this value, character by character.
    pub open spec fn text(&self, names: Map<u16, Seq<char>>) -> Seq<char> {
        cipher_text(names, self.d)
    }

    /// Writes the text of this value.
    pub fn render(&self, reg: &Registries) -> (s: String)
        ensures
            s@ == self.text(reg.cipher_suites@),
    {
        resolve_and_render(reg, RegistryKind::CipherSuite, self.d)
    }
}

/// A signature scheme identifier, shown with its name.
pub struct SignatureSchemeU16 {
    pub d: u16,
}

impl SignatureSchemeU16 {
    /// The text of this value, character by character.
    pub open spec fn text(&self, names: Map<u16, Seq<char>>) -> Seq<char> {
        signature_scheme_text(names, self.d)
    }

    /// Writes the text of this value.
    pub fn render(&self, reg: &Registries) -> (s: String)
        ensures
            s@ == self.text(reg.signature_schemes@),
    {
        resolve_and_render(reg, RegistryKind::SignatureScheme, self.d)
    }
}

} // verus!
