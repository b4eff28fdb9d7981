//! Pairs of hash and signature algorithm, and signed blocks.

use vstd::prelude::*;
use vstd::string::*;
use crate::registry::{Registries, RegistryKind};
use crate::resolve::{hash_text, resolve_and_render, sign_text};
use crate::text::{hex_list, push_hex_list};

verus! {

/// A hash algorithm and a signature algorithm, by their identifiers.
pub struct HashSignAlgorithm {
    pub hash: u8,
    pub sign: u8,
}

/// An optional pair of algorithms: `None` when absent, else the pair inside
/// `Some(..)`.
pub open spec fn opt_algorithm_text(
    alg: Option<HashSignAlgorithm>,
    hash_names: Map<u16, Seq<char>>,
    sign_names: Map<u16, Seq<char>>,
) -> Seq<char> {
    match alg {
        Some(a) => "Some("@ + a.text(hash_names, sign_names) + ")"@,
        None => "None"@,
    }
}

impl HashSignAlgorithm {
    /// The text of this value, character by character.
    pub open spec fn text(
        &self,
        hash_names: Map<u16, Seq<char>>,
        sign_names: Map<u16, Seq<char>>,
    ) -> Seq<char> {
        "HashSignAlgorithm { hash: "@ + hash_text(hash_names, self.hash) + ", sign: "@ + sign_text(
            sign_names,
            self.sign,
        ) + " }"@
    }

    /// Writes the text of this value.
    pub fn render(&self, reg: &Registries) -> (s: String)
        ensures
            s@ == self.text(reg.hash_algorithms@, reg.sign_algorithms@),
    {
        let hash = resolve_and_render(reg, RegistryKind::HashAlgorithm, self.hash as u16);
        let sign = resolve_and_render(reg, RegistryKind::SignAlgorithm, self.sign as u16);
        let mut out = String::new();
        out.append("HashSignAlgorithm { hash: ");
        out.append(hash.as_str());
        out.append(", sign: ");
        out.append(sign.as_str());
        out.append(" }");
        assert(out@ =~= self.text(reg.hash_algorithms@, reg.sign_algorithms@));
        out
    }
}

/// A signature, with the algorithms that made it where the message names them.
pub struct DigitallySigned<'a> {
    pub alg: Option<HashSignAlgorithm>,
    pub data: &'a [u8],
}

impl<'a> DigitallySigned<'a> {
    /// The text of this value, character by character.
    pub open spec fn text(
        &self,
        hash_names: Map<u16, Seq<char>>,
        sign_names: Map<u16, Seq<char>>,
    ) -> Seq<char> {
        "DigitallySigned { alg: "@ + opt_algorithm_text(self.alg, hash_names, sign_names)
            + ", data: "@ + hex_list(self.data@) + " }"@
    }

    /// Writes the text of this value.
    pub fn render(&self, reg: &Registries) -> (s: String)
        ensures
            s@ == self.text(reg.hash_algorithms@, reg.sign_algorithms@),
    {
        let mut out = String::new();
        out.append("DigitallySigned { alg: ");
        match &self.alg {
            Some(a) => {
                let inner = a.render(reg);
                out.append("Some(");
                out.append(inner.as_str());
                out.append(")");
            },
            None => {
                out.append("None");
            },
        }
        out.append(", data: ");
        push_hex_list(&mut out, self.data);
        out.append(" }");
        assert(out@ =~= self.text(reg.hash_algorithms@, reg.sign_algorithms@));
        out
    }
}

} // verus!
