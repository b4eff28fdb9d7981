//! Alert messages.

use vstd::prelude::*;
use vstd::string::*;
use crate::registry::{Registries, RegistryKind};
use crate::resolve::{resolve_and_render, severity_text};
use crate::text::{decimal, push_decimal};

verus! {

/// An alert: how severe it is, and what it reports.
pub struct TlsMessageAlert {
    pub severity: u8,
    pub code: u8,
}

impl TlsMessageAlert {
    /// The text of this value, character by character.
    pub open spec fn text(&self, severity_names: Map<u16, Seq<char>>) -> Seq<char> {
        "TlsMessageAlert { severity: "@ + severity_text(severity_names, self.severity)
            + ", code: "@ + decimal(self.code as nat) + " }"@
    }

    /// The severity is resolved to its label; the code is shown as a number.
    pub fn render(&self, reg: &Registries) -> (s: String)
        ensures
            s@ == self.text(reg.alert_severities@),
    {
        let severity = resolve_and_render(reg, RegistryKind::AlertSeverity, self.severity as u16);
        let mut out = String::new();
        out.append("TlsMessageAlert { severity: ");
        out.append(severity.as_str());
        out.append(", code: ");
        push_decimal(&mut out, self.code as u128);
        out.append(" }");
        assert(out@ =~= self.text(reg.alert_severities@));
        out
    }
}

} // verus!
