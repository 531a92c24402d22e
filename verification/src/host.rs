//! A single remote target and the arguments that reach it.

use crate::text::{decimal, decimal_string, texts};
use vstd::prelude::*;
use vstd::string::*;

verus! {

/// The port used for an entry whose source names none.
pub open spec fn spec_default_port() -> u16 {
    22
}

/// The standard SSH port.
#[verifier::when_used_as_spec(spec_default_port)]
pub fn default_port() -> (port: u16)
    ensures
        port == spec_default_port(),
{
    22
}

/// One known remote target: who to log in as, where, and on which port.
#[derive(Debug, PartialEq, Eq)]
pub struct ConfigHost {
    pub user_name: String,
    pub host: String,
    pub port: u16,
}

/// The mathematical content of a [`ConfigHost`].
pub struct HostView {
    pub user_name: Seq<char>,
    pub host: Seq<char>,
    pub port: u16,
}

impl HostView {
    /// The login target, `user@host`.
    pub open spec fn target(self) -> Seq<char> {
        self.user_name + seq!['@'] + self.host
    }

    /// The arguments handed to the SSH client: the port flag, the port in
    /// decimal, and the login target last.
    pub open spec fn ssh_args(self) -> Seq<Seq<char>> {
        seq![seq!['-', 'p'], decimal(self.port as nat), self.target()]
    }

    /// Both the login name and the remote host are given.
    pub open spec fn complete(self) -> bool {
        self.user_name.len() > 0 && self.host.len() > 0
    }
}

impl View for ConfigHost {
    type V = HostView;

    open spec fn view(&self) -> HostView {
        HostView { user_name: self.user_name@, host: self.host@, port: self.port }
    }
}

impl ConfigHost {
    /// Builds the argument list for the SSH client. The order is fixed: the
    /// client takes the flag and its value first and the target as the
    /// trailing positional argument. The list depends on the entry's content
    /// alone, so every call on one entry gives the same list.
    pub fn as_ssh_args(&self) -> (args: Vec<String>)
        ensures
            texts(args@) == self@.ssh_args(),
            args@.len() == 3,
            args@[0]@ == seq!['-', 'p'],
            args@[1]@ == decimal(self.port as nat),
            args@[2]@ == self.user_name@ + seq!['@'] + self.host@,
    {
        let mut args: Vec<String> = Vec::new();

        proof {
            reveal_strlit("-p");
            reveal_strlit("@");
        }
        let flag: String = String::from_str("-p");
        assert(flag@ =~= seq!['-', 'p']);
        args.push(flag);
        args.push(decimal_string(self.port));
        let mut target: String = self.user_name.clone();
        target.append("@");
        target.append(self.host.as_str());
        assert(target@ =~= self@.target());
        args.push(target);

        args
    }
}

/// The shape of every argument list: three elements, the flag first and the
/// target last, whatever the entry holds.
pub proof fn lemma_ssh_args_shape(entry: HostView)
    ensures
        entry.ssh_args().len() == 3,
        entry.ssh_args()[0] == seq!['-', 'p'],
        entry.ssh_args()[1] == decimal(entry.port as nat),
        entry.ssh_args()[2] == entry.user_name + seq!['@'] + entry.host,
{
}

} // verus!
