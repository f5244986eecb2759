//! The registry of hosts: each hostname with the address and the credential
//! of its node.

use vstd::prelude::*;
use vstd::set_lib::lemma_subset_equality;
use vstd::std_specs::cmp::PartialEqSpecImpl;

verus! {

/// How to reach one node: its base address and the credential it asks for.
#[derive(Debug, PartialEq, Eq)]
pub struct Host {
    pub ip: String,
    pub api_key: String,
}

/// What a [`Host`] holds, as plain text.
pub struct HostView {
    pub ip: Seq<char>,
    pub api_key: Seq<char>,
}

impl View for Host {
    type V = HostView;

    open spec fn view(&self) -> HostView {
        HostView { ip: self.ip@, api_key: self.api_key@ }
    }
}

impl Clone for Host {
    fn clone(&self) -> (copy: Self)
        ensures
            copy == *self,
    {
        Host { ip: self.ip.clone(), api_key: self.api_key.clone() }
    }
}

/// One entry of the registry.
#[derive(Debug, PartialEq, Eq)]
pub struct HostEntry {
    pub hostname: String,
    pub host: Host,
}

impl Clone for HostEntry {
    fn clone(&self) -> (copy: Self)
        ensures
            copy == *self,
    {
        HostEntry { hostname: self.hostname.clone(), host: self.host.clone() }
    }
}

/// The mapping that a list of entries stands for, where no hostname occurs
/// twice: each hostname with its host.
pub open spec fn mapping(names: Seq<Seq<char>>, hosts: Seq<HostView>) -> Map<Seq<char>, HostView> {
    Map::new(|name: Seq<char>| names.contains(name), |name: Seq<char>| hosts[names.index_of(name)])
}

/// The hosts by hostname. No hostname occurs twice. Two registries are equal
/// if they hold the same hosts under the same names, in whatever order.
#[derive(Debug, Eq)]
pub struct HostRegistry {
    entries: Vec<HostEntry>,
}

impl View for HostRegistry {
    type V = Map<Seq<char>, HostView>;

    open spec fn view(&self) -> Map<Seq<char>, HostView> {
        mapping(self.names(), self.hosts())
    }
}

impl HostRegistry {
    /// The hostnames, in the order in which the registry lists them.
    pub closed spec fn names(&self) -> Seq<Seq<char>> {
        Seq::new(self.entries@.len(), |i: int| self.entries@[i].hostname@)
    }

    /// The hosts, each at the index of its hostname in `names`.
    pub closed spec fn hosts(&self) -> Seq<HostView> {
        Seq::new(self.entries@.len(), |i: int| self.entries@[i].host@)
    }

    /// Every hostname is listed once.
    #[verifier::type_invariant]
    pub open spec fn wf(&self) -> bool {
        &&& self.names().no_duplicates()
        &&& self.hosts().len() == self.names().len()
    }

    /// In a registry where every hostname is listed once, the listed names
    /// are the keys of the mapping, and each listed host is its name's value.
    pub proof fn lemma_listing(&self)
        requires
            self.wf(),
        ensures
            self@.dom() == self.names().to_set(),
            self@.dom().finite(),
            self@.len() == self.names().len(),
            forall|i: int|
                0 <= i < self.names().len() ==> self@.contains_key(#[trigger] self.names()[i])
                    && self@[self.names()[i]] == self.hosts()[i],
    {
        let names = self.names();
        assert(self@.dom() =~= names.to_set());
        names.unique_seq_to_set();
        vstd::seq_lib::seq_to_set_is_finite(names);
        assert forall|i: int| 0 <= i < names.len() implies self@.contains_key(#[trigger] names[i])
            && self@[names[i]] == self.hosts()[i] by {
            assert(names.contains(names[i]));
            assert(names.index_of(names[i]) == i);
        }
    }

    /// An empty registry.
    pub fn new() -> (registry: HostRegistry)
        ensures
            registry@ == Map::<Seq<char>, HostView>::empty(),
            registry.names() == Seq::<Seq<char>>::empty(),
    {
        let registry = HostRegistry { entries: Vec::new() };
        assert(registry.names() =~= Seq::<Seq<char>>::empty());
        assert(registry@ =~= Map::<Seq<char>, HostView>::empty());
        registry
    }

    /// The number of hosts.
    pub fn len(&self) -> (n: usize)
        ensures
            n == self@.len(),
            n == self.names().len(),
    {
        proof {
            use_type_invariant(self);
            self.lemma_listing();
        }
        self.entries.len()
    }

    /// Whether `entries` lists the registry: one entry for each hostname, in
    /// the order of `names`, each with the host that is registered under it.
    pub open spec fn listed_by(&self, entries: Seq<HostEntry>) -> bool {
        &&& entries.len() == self.names().len()
        &&& entries.len() == self@.len()
        &&& self.names().no_duplicates()
        &&& forall|i: int|
            0 <= i < entries.len() ==> (#[trigger] entries[i]).hostname@ == self.names()[i]
                && self@.contains_key(self.names()[i]) && entries[i].host@ == self@[self.names()[i]]
    }

    /// The entries, one for each hostname.
    pub fn entries(&self) -> (entries: &Vec<HostEntry>)
        ensures
            self.listed_by(entries@),
    {
        proof {
            use_type_invariant(self);
            self.lemma_listing();
        }
        &self.entries
    }

    /// The index at which `hostname` is listed, if it is.
    fn position(&self, hostname: &str) -> (at: Option<usize>)
        ensures
            match at {
                Some(i) => i < self.names().len() && self.names()[i as int] == hostname@,
                None => !self.names().contains(hostname@),
            },
    {
        let mut i: usize = 0;
        while i < self.entries.len()
            invariant
                i <= self.entries@.len(),
                forall|j: int| 0 <= j < i ==> self.names()[j] != hostname@,
            decreases self.entries@.len() - i,
        {
            if self.entries[i].hostname.as_str().eq(hostname) {
                return Some(i);
            }
            i = i + 1;
        }
        None
    }

    /// Whether `hostname` is registered.
    pub fn contains(&self, hostname: &str) -> (found: bool)
        ensures
            found == self@.contains_key(hostname@),
    {
        self.position(hostname).is_some()
    }

    /// The host registered as `hostname`, if there is one.
    pub fn get(&self, hostname: &str) -> (found: Option<&Host>)
        ensures
            match found {
                Some(host) => self@.contains_key(hostname@) && host@ == self@[hostname@],
                None => !self@.contains_key(hostname@),
            },
    {
        proof {
            use_type_invariant(self);
            self.lemma_listing();
        }
        match self.position(hostname) {
            Some(i) => Some(&self.entries[i].host),
            None => None,
        }
    }

    /// Registers `host` as `hostname`, in place of the host that had that
    /// name, if there was one.
    pub fn insert(&mut self, hostname: String, host: Host)
        ensures
            final(self)@ == old(self)@.insert(hostname@, host@),
            final(self).names() == if old(self)@.contains_key(hostname@) {
                old(self).names()
            } else {
                old(self).names().push(hostname@)
            },
    {
        proof {
            use_type_invariant(&*self);
            self.lemma_listing();
        }
        let ghost before = *self;
        let at = self.position(hostname.as_str());
        let mut entries = Vec::new();
        std::mem::swap(&mut entries, &mut self.entries);
        let ghost name = hostname@;
        let ghost value = host@;
        match at {
            Some(i) => {
                entries.set(i, HostEntry { hostname, host });
            },
            None => {
                entries.push(HostEntry { hostname, host });
            },
        }
        proof {
            let listed = Seq::new(entries@.len(), |i: int| entries@[i].hostname@);
            if at is Some {
                assert(listed =~= before.names());
            } else {
                assert(listed =~= before.names().push(name));
            }
            assert(listed.no_duplicates());
        }
        self.entries = entries;
        proof {
            let names = self.names();
            let old_names = before.names();
            if before@.contains_key(name) {
                assert(names =~= old_names);
            } else {
                assert(names =~= old_names.push(name));
            }
            self.lemma_listing();
            assert forall|k: Seq<char>| self@.contains_key(k) == before@.insert(
                name,
                value,
            ).contains_key(k) by {
                if names.contains(k) {
                    let j = names.index_of(k);
                    if j < old_names.len() {
                        assert(old_names[j] == k || k == name);
                    }
                }
                if old_names.contains(k) {
                    let j = old_names.index_of(k);
                    assert(names[j] == k);
                }
                if k == name {
                    if at is None {
                        assert(names[old_names.len() as int] == k);
                    }
                }
            }
            assert forall|k: Seq<char>| self@.contains_key(k) implies self@[k] == before@.insert(
                name,
                value,
            )[k] by {
                let j = names.index_of(k);
                assert(self@[names[j]] == self.hosts()[j]);
                if k != name {
                    assert(j < old_names.len());
                    assert(old_names[j] == k);
                    assert(before@[old_names[j]] == before.hosts()[j]);
                }
            }
            assert(self@ =~= before@.insert(name, value));
        }
    }
}

impl PartialEq for HostRegistry {
    fn eq(&self, other: &HostRegistry) -> (same: bool) {
        proof {
            use_type_invariant(self);
            use_type_invariant(other);
            self.lemma_listing();
            other.lemma_listing();
        }
        if self.entries.len() != other.entries.len() {
            return false;
        }
        let mut i: usize = 0;
        while i < self.entries.len()
            invariant
                i <= self.entries@.len(),
                self.listed_by(self.entries@),
                forall|j: int|
                    0 <= j < i ==> other@.contains_key(#[trigger] self.names()[j])
                        && other@[self.names()[j]] == self@[self.names()[j]],
            decreases self.entries@.len() - i,
        {
            let entry = &self.entries[i];
            match other.get(entry.hostname.as_str()) {
                None => {
                    return false;
                },
                Some(host) => {
                    if !(host.ip == entry.host.ip && host.api_key == entry.host.api_key) {
                        return false;
                    }
                },
            }
            i = i + 1;
        }
        proof {
            assert forall|name: Seq<char>| self@.contains_key(name) implies other@.contains_key(
                name,
            ) && other@[name] == self@[name] by {
                let j = self.names().index_of(name);
                assert(self.names()[j] == name);
            }
            assert(self@.dom().subset_of(other@.dom()));
            lemma_subset_equality(self@.dom(), other@.dom());
            assert(self@ =~= other@);
        }
        true
    }
}

impl PartialEqSpecImpl for HostRegistry {
    open spec fn obeys_eq_spec() -> bool {
        true
    }

    open spec fn eq_spec(&self, other: &HostRegistry) -> bool {
        self@ == other@
    }
}

} // verus!
