//! The registry: every known alias with the host it stands for.

use crate::failure::Failure;
use crate::host::{default_port, ConfigHost, HostView};
use crate::source::{ConfigFile, ConfigFileView, HostSource};
use vstd::prelude::*;
use vstd::string::*;

verus! {

/// Aliases with their hosts, in listing order.
pub type Listing = Seq<(Seq<char>, HostView)>;

/// No alias is empty or occurs twice, and every host names its login and
/// its remote host.
pub open spec fn well_formed(listing: Listing) -> bool {
    &&& forall|i: int| 0 <= i < listing.len() ==> (#[trigger] listing[i]).0.len() > 0
    &&& forall|i: int| 0 <= i < listing.len() ==> (#[trigger] listing[i]).1.complete()
    &&& forall|i: int, j: int|
        0 <= i < listing.len() && 0 <= j < listing.len() && i != j ==> (#[trigger] listing[i]).0
            != (#[trigger] listing[j]).0
}

/// Some entry of the listing has this alias.
pub open spec fn has_alias(listing: Listing, alias: Seq<char>) -> bool {
    exists|i: int| 0 <= i < listing.len() && (#[trigger] listing[i]).0 == alias
}

/// The place of an alias in the listing.
pub open spec fn index_of(listing: Listing, alias: Seq<char>) -> int {
    choose|i: int| 0 <= i < listing.len() && (#[trigger] listing[i]).0 == alias
}

/// The mapping that a listing stands for: from each alias to its host.
pub open spec fn as_map(listing: Listing) -> Map<Seq<char>, HostView> {
    Map::new(
        |alias: Seq<char>| has_alias(listing, alias),
        |alias: Seq<char>| listing[index_of(listing, alias)].1,
    )
}

/// In a well-formed listing every entry is what its alias maps to.
pub proof fn lemma_entry_in_map(listing: Listing, i: int)
    requires
        well_formed(listing),
        0 <= i < listing.len(),
    ensures
        as_map(listing).contains_key(listing[i].0),
        as_map(listing)[listing[i].0] == listing[i].1,
        index_of(listing, listing[i].0) == i,
{
    assert(has_alias(listing, listing[i].0));
}

/// The hosts of a valid document make a well-formed listing.
pub proof fn lemma_valid_listing(file: ConfigFileView)
    requires
        file.valid(),
    ensures
        well_formed(file.listing()),
{
    let listing = file.listing();
    assert forall|i: int| 0 <= i < listing.len() implies (#[trigger] listing[i]).0.len() > 0
        && listing[i].1.complete() by {
        assert(file.entry_ok(i));
    }
    assert forall|i: int, j: int|
        0 <= i < listing.len() && 0 <= j < listing.len() && i != j implies (#[trigger] listing[i]).0
        != (#[trigger] listing[j]).0 by {
        assert(file.entry_ok(i));
        assert(file.entry_ok(j));
    }
}

/// The registry. It is made once, from a configuration document, and only
/// read after that.
#[derive(Debug)]
pub struct Registry {
    entries: Vec<(String, ConfigHost)>,
}

impl View for Registry {
    type V = Map<Seq<char>, HostView>;

    open spec fn view(&self) -> Map<Seq<char>, HostView> {
        as_map(self.listing())
    }
}

/// Loading and then looking up keeps what the document says. In the
/// registry that a valid document loads to, every host of the document is
/// found under its alias, with its login name and remote host as written
/// and with its port as written, or the default port where the document
/// names none.
pub proof fn lemma_load_keeps_source(file: ConfigFileView, registry: Registry, i: int)
    requires
        file.valid(),
        registry.listing() == file.listing(),
        0 <= i < file.len(),
    ensures
        ({
            let source = file.hosts.unwrap()[i].1;
            &&& registry@.contains_key(file.alias(i))
            &&& registry@[file.alias(i)].user_name == source.user_name.unwrap()
            &&& registry@[file.alias(i)].host == source.host.unwrap()
            &&& registry@[file.alias(i)].port == match source.port {
                Some(port) => port,
                None => 22u16,
            }
        }),
{
    lemma_valid_listing(file);
    lemma_entry_in_map(file.listing(), i);
}

/// Loading adds nothing: every alias of the registry that a valid document
/// loads to is an alias of the document.
pub proof fn lemma_load_adds_nothing(file: ConfigFileView, registry: Registry, alias: Seq<char>)
    requires
        file.valid(),
        registry.listing() == file.listing(),
        registry@.contains_key(alias),
    ensures
        exists|i: int| 0 <= i < file.len() && #[trigger] file.alias(i) == alias,
{
    let i = index_of(file.listing(), alias);
    assert(file.alias(i) == alias);
}

/// A document that lacks the `hosts` mapping, or in which some host lacks
/// its login name or its remote host, is not valid: loading it fails.
pub proof fn lemma_missing_field_is_malformed(file: ConfigFileView, i: int)
    ensures
        file.hosts is None ==> !file.valid(),
        0 <= i < file.len() && file.hosts.unwrap()[i].1.user_name is None ==> !file.valid(),
        0 <= i < file.len() && file.hosts.unwrap()[i].1.host is None ==> !file.valid(),
{
    if 0 <= i < file.len() && file.valid() {
        assert(file.entry_ok(i));
    }
}

/// The listing that a vector of entries holds.
spec fn listing_of(entries: Seq<(String, ConfigHost)>) -> Listing {
    Seq::new(entries.len(), |i: int| (entries[i].0@, entries[i].1@))
}

/// Finds the entry with the given alias.
fn position(entries: &Vec<(String, ConfigHost)>, alias: &String) -> (found: Option<usize>)
    ensures
        match found {
            Some(i) => i < entries@.len() && entries@[i as int].0@ == alias@,
            None => forall|j: int| 0 <= j < entries@.len() ==> entries@[j].0@ != alias@,
        },
{
    let mut i: usize = 0;
    while i < entries.len()
        invariant
            i <= entries@.len(),
            forall|j: int| 0 <= j < i ==> entries@[j].0@ != alias@,
        decreases entries@.len() - i,
    {
        if entries[i].0 == *alias {
            return Some(i);
        }
        i = i + 1;
    }
    None
}

impl Registry {
    /// The entries in the order in which they are listed.
    pub closed spec fn listing(&self) -> Listing {
        listing_of(self.entries@)
    }

    #[verifier::type_invariant]
    spec fn inv(&self) -> bool {
        well_formed(self.listing())
    }

    /// Makes the registry of a configuration document. A document that is
    /// not valid makes none: the failure names what is wrong with it.
    pub fn load(file: &ConfigFile) -> (result: Result<Registry, Failure>)
        ensures
            match result {
                Ok(registry) => {
                    &&& file@.valid()
                    &&& registry.listing() == file@.listing()
                    &&& well_formed(registry.listing())
                },
                Err(failure) => {
                    &&& !file@.valid()
                    &&& failure matches Failure::ConfigMalformed { context }
                    &&& context@ == file@.defect()
                },
            },
    {
        let hosts = match &file.hosts {
            Some(hosts) => hosts,
            None => {
                return Err(Failure::ConfigMalformed { context: String::from_str("hosts") });
            },
        };
        let mut entries: Vec<(String, ConfigHost)> = Vec::new();
        let mut i: usize = 0;
        while i < hosts.len()
            invariant
                file.hosts == Some(*hosts),
                i <= hosts@.len(),
                entries@.len() == i,
                forall|j: int| 0 <= j < i ==> file@.entry_ok(j),
                forall|j: int| 0 <= j < i ==> listing_of(entries@)[j] == file@.listing()[j],
            decreases hosts@.len() - i,
        {
            let alias = &hosts[i].0;
            let source = &hosts[i].1;
            let entry = Self::admit_entry(&entries, alias, source);
            proof {
                assert forall|j: int| 0 <= j < i implies entries@[j].0@ == file@.alias(j) by {
                    assert(listing_of(entries@)[j] == file@.listing()[j]);
                }
            }
            match entry {
                Some(host) => {
                    entries.push((alias.clone(), host));
                },
                None => {
                    proof {
                        if file@.entry_ok(i as int) {
                            assert forall|j: int| 0 <= j < entries@.len() implies entries@[j].0@
                                != alias@ by {
                                assert(file@.alias(j) != file@.alias(i as int));
                            }
                        }
                        assert(file@.first_defect(i as int));
                    }
                    return Err(Failure::ConfigMalformed { context: alias.clone() });
                },
            }
            i = i + 1;
        }
        proof {
            lemma_valid_listing(file@);
        }
        Ok(Registry { entries })
    }

    /// The entry that a source makes under `alias` beside the entries
    /// already admitted, or none where it cannot stand beside them.
    fn admit_entry(entries: &Vec<(String, ConfigHost)>, alias: &String, source: &HostSource) -> (entry:
        Option<ConfigHost>)
        ensures
            entry is Some <==> {
                &&& alias@.len() > 0
                &&& source@.complete()
                &&& forall|j: int| 0 <= j < entries@.len() ==> entries@[j].0@ != alias@
            },
            entry matches Some(host) ==> host@ == source@.resolved(),
    {
        if alias.as_str().is_empty() {
            return None;
        }
        let user_name = match &source.user_name {
            Some(name) => name,
            None => {
                return None;
            },
        };
        let host = match &source.host {
            Some(host) => host,
            None => {
                return None;
            },
        };
        if user_name.as_str().is_empty() || host.as_str().is_empty() {
            return None;
        }
        if position(entries, alias).is_some() {
            return None;
        }
        let port = match source.port {
            Some(port) => port,
            None => default_port(),
        };
        Some(ConfigHost { user_name: user_name.clone(), host: host.clone(), port })
    }

    /// The number of entries.
    pub fn len(&self) -> (n: usize)
        ensures
            n == self.listing().len(),
    {
        self.entries.len()
    }

    /// The `i`-th entry in listing order: its alias and its host.
    pub(crate) fn entry(&self, i: usize) -> (entry: (&String, &ConfigHost))
        requires
            i < self.listing().len(),
        ensures
            (entry.0@, entry.1@) == self.listing()[i as int],
    {
        (&self.entries[i].0, &self.entries[i].1)
    }

    /// Looks an alias up. The match is exact and case-sensitive.
    pub fn get(&self, alias: &String) -> (found: Option<&ConfigHost>)
        ensures
            match found {
                Some(host) => self@.contains_key(alias@) && host@ == self@[alias@],
                None => !self@.contains_key(alias@),
            },
    {
        proof {
            use_type_invariant(self);
        }
        match position(&self.entries, alias) {
            Some(i) => {
                proof {
                    lemma_entry_in_map(self.listing(), i as int);
                }
                Some(&self.entries[i].1)
            },
            None => None,
        }
    }
}

} // verus!
