//! A configuration document as it was read: every field may be missing.

use crate::host::{spec_default_port, HostView};
use vstd::prelude::*;

verus! {

/// One host as a configuration document writes it.
#[derive(Debug, PartialEq, Eq)]
pub struct HostSource {
    pub user_name: Option<String>,
    pub host: Option<String>,
    pub port: Option<u16>,
}

/// The mathematical content of a [`HostSource`].
pub struct HostSourceView {
    pub user_name: Option<Seq<char>>,
    pub host: Option<Seq<char>>,
    pub port: Option<u16>,
}

impl View for HostSource {
    type V = HostSourceView;

    open spec fn view(&self) -> HostSourceView {
        HostSourceView {
            user_name: match self.user_name {
                Some(name) => Some(name@),
                None => None,
            },
            host: match self.host {
                Some(host) => Some(host@),
                None => None,
            },
            port: self.port,
        }
    }
}

impl HostSourceView {
    /// The login name and the remote host are both present and not empty.
    pub open spec fn complete(self) -> bool {
        &&& self.user_name matches Some(name) && name.len() > 0
        &&& self.host matches Some(host) && host.len() > 0
    }

    /// The entry this source stands for: the name and the host as written,
    /// the port as written or else the default.
    pub open spec fn resolved(self) -> HostView {
        HostView {
            user_name: self.user_name.unwrap(),
            host: self.host.unwrap(),
            port: match self.port {
                Some(port) => port,
                None => spec_default_port(),
            },
        }
    }
}

/// A configuration document: the mapping `hosts`, from alias to host, in the
/// order in which the document gives it.
#[derive(Debug, PartialEq, Eq)]
pub struct ConfigFile {
    pub hosts: Option<Vec<(String, HostSource)>>,
}

/// The mathematical content of a [`ConfigFile`].
pub struct ConfigFileView {
    pub hosts: Option<Seq<(Seq<char>, HostSourceView)>>,
}

impl View for ConfigFile {
    type V = ConfigFileView;

    open spec fn view(&self) -> ConfigFileView {
        ConfigFileView {
            hosts: match self.hosts {
                Some(hosts) => Some(Seq::new(hosts@.len(), |i: int| (hosts@[i].0@, hosts@[i].1@))),
                None => None,
            },
        }
    }
}

impl ConfigFileView {
    /// The number of hosts the document lists.
    pub open spec fn len(self) -> nat {
        match self.hosts {
            Some(hosts) => hosts.len(),
            None => 0,
        }
    }

    /// The alias of the `i`-th host.
    pub open spec fn alias(self, i: int) -> Seq<char> {
        self.hosts.unwrap()[i].0
    }

    /// The `i`-th host can enter a registry: its alias is not empty and not
    /// used by an earlier host, and its login name and remote host are
    /// given.
    pub open spec fn entry_ok(self, i: int) -> bool {
        &&& self.alias(i).len() > 0
        &&& self.hosts.unwrap()[i].1.complete()
        &&& forall|j: int| 0 <= j < i ==> self.alias(j) != self.alias(i)
    }

    /// The document has a `hosts` mapping and every host in it can enter a
    /// registry.
    pub open spec fn valid(self) -> bool {
        &&& self.hosts is Some
        &&& forall|i: int| 0 <= i < self.len() ==> self.entry_ok(i)
    }

    /// `i` is the first host that cannot enter a registry.
    pub open spec fn first_defect(self, i: int) -> bool {
        &&& 0 <= i < self.len()
        &&& !self.entry_ok(i)
        &&& forall|j: int| 0 <= j < i ==> self.entry_ok(j)
    }

    /// What is wrong with a document that is not valid: the field `hosts`
    /// where the mapping is missing, else the alias of the first host that
    /// cannot enter a registry.
    pub open spec fn defect(self) -> Seq<char> {
        if self.hosts is None {
            "hosts"@
        } else {
            self.alias(choose|i: int| self.first_defect(i))
        }
    }

    /// The hosts of the document as registry entries, in document order.
    pub open spec fn listing(self) -> Seq<(Seq<char>, HostView)> {
        Seq::new(self.len(), |i: int| (self.alias(i), self.hosts.unwrap()[i].1.resolved()))
    }
}

} // verus!
