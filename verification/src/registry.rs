//! Tables from numeric protocol codes to symbolic names.
//!
//! The renderers never own a table of codes: the caller hands them the
//! tables to resolve against, one per kind of code.

use vstd::prelude::*;

verus! {

/// The mapping that a list of entries stands for: a later entry for a code
/// replaces an earlier one.
spec fn table_of(entries: Seq<(u16, String)>) -> Map<u16, Seq<char>>
    decreases entries.len(),
{
    if entries.len() == 0 {
        Map::empty()
    } else {
        table_of(entries.drop_last()).insert(entries.last().0, entries.last().1@)
    }
}

/// The entry at `i` decides the name of its code when no later entry has that code.
proof fn last_entry_decides(entries: Seq<(u16, String)>, i: int)
    requires
        0 <= i < entries.len(),
        forall|j: int| i < j < entries.len() ==> (#[trigger] entries[j]).0 != entries[i].0,
    ensures
        table_of(entries).contains_key(entries[i].0),
        table_of(entries)[entries[i].0] == entries[i].1@,
    decreases entries.len(),
{
    if i < entries.len() - 1 {
        let front = entries.drop_last();
        assert(front[i] == entries[i]);
        assert forall|j: int| i < j < front.len() implies (#[trigger] front[j]).0 != front[i].0 by {
            assert(front[j] == entries[j]);
        }
        last_entry_decides(front, i);
        assert(entries.last() == entries[entries.len() - 1]);
    }
}

/// A code that no entry has is not in the mapping.
proof fn absent_code(entries: Seq<(u16, String)>, code: u16)
    requires
        forall|j: int| 0 <= j < entries.len() ==> (#[trigger] entries[j]).0 != code,
    ensures
        !table_of(entries).contains_key(code),
    decreases entries.len(),
{
    if entries.len() > 0 {
        let front = entries.drop_last();
        assert forall|j: int| 0 <= j < front.len() implies (#[trigger] front[j]).0 != code by {
            assert(front[j] == entries[j]);
        }
        absent_code(front, code);
        assert(entries.last() == entries[entries.len() - 1]);
    }
}

/// A table from codes to names, for one kind of code.
pub struct Registry {
    entries: Vec<(u16, String)>,
}

impl View for Registry {
    type V = Map<u16, Seq<char>>;

    closed spec fn view(&self) -> Map<u16, Seq<char>> {
        table_of(self.entries@)
    }
}

impl Registry {
    /// A table that knows no code.
    pub fn new() -> (r: Registry)
        ensures
            r@ == Map::<u16, Seq<char>>::empty(),
    {
        Registry { entries: Vec::new() }
    }

    /// Gives `code` the name `name`, in place of any name it had.
    pub fn insert(&mut self, code: u16, name: &str)
        ensures
            final(self)@ == old(self)@.insert(code, name@),
    {
        let owned = name.to_owned();
        self.entries.push((code, owned));
        assert(self.entries@.drop_last() =~= old(self).entries@);
    }

    /// The name of `code`, if the table has one.
    pub fn resolve(&self, code: u16) -> (r: Option<&str>)
        ensures
            match r {
                Some(name) => self@.contains_key(code) && name@ == self@[code],
                None => !self@.contains_key(code),
            },
    {
        let mut i: usize = self.entries.len();
        while i > 0
            invariant
                i <= self.entries@.len(),
                forall|j: int|
                    i <= j < self.entries@.len() ==> (#[trigger] self.entries@[j]).0 != code,
            decreases i,
        {
            i -= 1;
            if self.entries[i].0 == code {
                proof {
                    last_entry_decides(self.entries@, i as int);
                }
                return Some(self.entries[i].1.as_str());
            }
        }
        proof {
            absent_code(self.entries@, code);
        }
        None
    }
}

/// The kinds of code that have a table.
#[derive(Clone, Copy, Debug)]
pub enum RegistryKind {
    CipherSuite,
    NamedGroup,
    SignatureScheme,
    HashAlgorithm,
    SignAlgorithm,
    AlertSeverity,
}

/// The tables that the renderers resolve against, one per kind of code.
pub struct Registries {
    /// Cipher suites, by their 16-bit identifier.
    pub cipher_suites: Registry,
    /// Named groups (elliptic curves and finite-field groups).
    pub named_groups: Registry,
    /// Signature schemes, by their 16-bit identifier.
    pub signature_schemes: Registry,
    /// Hash algorithms, by their 8-bit identifier.
    pub hash_algorithms: Registry,
    /// Signature algorithms, by their 8-bit identifier.
    pub sign_algorithms: Registry,
    /// Alert severities, by their 8-bit level.
    pub alert_severities: Registry,
}

impl Registries {
    /// The names that the table of `kind` gives.
    pub open spec fn names(&self, kind: RegistryKind) -> Map<u16, Seq<char>> {
        match kind {
            RegistryKind::CipherSuite => self.cipher_suites@,
            RegistryKind::NamedGroup => self.named_groups@,
            RegistryKind::SignatureScheme => self.signature_schemes@,
            RegistryKind::HashAlgorithm => self.hash_algorithms@,
            RegistryKind::SignAlgorithm => self.sign_algorithms@,
            RegistryKind::AlertSeverity => self.alert_severities@,
        }
    }

    /// Six tables that know no code.
    pub fn new() -> (r: Registries)
        ensures
            r.cipher_suites@ == Map::<u16, Seq<char>>::empty(),
            r.named_groups@ == Map::<u16, Seq<char>>::empty(),
            r.signature_schemes@ == Map::<u16, Seq<char>>::empty(),
            r.hash_algorithms@ == Map::<u16, Seq<char>>::empty(),
            r.sign_algorithms@ == Map::<u16, Seq<char>>::empty(),
            r.alert_severities@ == Map::<u16, Seq<char>>::empty(),
    {
        Registries {
            cipher_suites: Registry::new(),
            named_groups: Registry::new(),
            signature_schemes: Registry::new(),
            hash_algorithms: Registry::new(),
            sign_algorithms: Registry::new(),
            alert_severities: Registry::new(),
        }
    }

    /// The table of `kind`.
    pub fn table(&self, kind: RegistryKind) -> (t: &Registry)
        ensures
            t@ == self.names(kind),
    {
        match kind {
            RegistryKind::CipherSuite => &self.cipher_suites,
            RegistryKind::NamedGroup => &self.named_groups,
            RegistryKind::SignatureScheme => &self.signature_schemes,
            RegistryKind::HashAlgorithm => &self.hash_algorithms,
            RegistryKind::SignAlgorithm => &self.sign_algorithms,
            RegistryKind::AlertSeverity => &self.alert_severities,
        }
    }

    /// The name of `code` among the codes of `kind`, if its table has one.
    pub fn resolve(&self, kind: RegistryKind, code: u16) -> (r: Option<&str>)
        ensures
            match r {
                Some(name) => self.names(kind).contains_key(code) && name@ == self.names(
                    kind,
                )[code],
                None => !self.names(kind).contains_key(code),
            },
    {
        self.table(kind).resolve(code)
    }
}

} // verus!
