//! Diffie-Hellman parameters of the server.

use vstd::prelude::*;
use vstd::string::*;
use crate::text::{decimal, hex_list, push_decimal, push_hex_list};

verus! {

/// The modulus, the generator and the public value, each as it was sent.
pub struct ServerDHParams<'a> {
    pub dh_p: &'a [u8],
    pub dh_g: &'a [u8],
    pub dh_ys: &'a [u8],
}

impl<'a> ServerDHParams<'a> {
    /// The number of bits in the bytes of the generator. It is shown for
    /// convenience, and says nothing of the size of the modulus.
    pub open spec fn group_size(&self) -> nat {
        self.dh_g@.len() * 8
    }

    /// The text of this value, character by character.
    pub open spec fn text(&self) -> Seq<char> {
        "ServerDHParams { group size: "@ + decimal(self.group_size()) + ", dh_p: "@ + hex_list(
            self.dh_p@,
        ) + ", dh_g: "@ + hex_list(self.dh_g@) + ", dh_ys: "@ + hex_list(self.dh_ys@) + " }"@
    }

    /// The group size in bits, in a type wide enough for any length.
    pub fn group_size_bits(&self) -> (bits: u128)
        ensures
            bits == self.group_size(),
    {
        let len: u128 = self.dh_g.len() as u128;
        len * 8
    }

    /// Writes the text of this value.
    pub fn render(&self) -> (s: String)
        ensures
            s@ == self.text(),
    {
        let mut out = String::new();
        out.append("ServerDHParams { group size: ");
        push_decimal(&mut out, self.group_size_bits());
        out.append(", dh_p: ");
        push_hex_list(&mut out, self.dh_p);
        out.append(", dh_g: ");
        push_hex_list(&mut out, self.dh_g);
        out.append(", dh_ys: ");
        push_hex_list(&mut out, self.dh_ys);
        out.append(" }");
        assert(out@ =~= self.text());
        out
    }
}

} // verus!
