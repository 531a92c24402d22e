//! What to do for a command: list the registry, hand over to the SSH
//! client, or say that an alias is not known.

use crate::registry::{as_map, has_alias, well_formed, Listing, Registry};
use crate::table::{alias_width, host_table, lemma_table_rows, row, table};
use crate::text::texts;
use vstd::prelude::*;
use vstd::string::*;

verus! {

/// The operation asked for on the command line.
#[derive(Debug, PartialEq, Eq)]
pub enum SubCommand {
    /// List the known hosts.
    List,
    /// Connect to the host known under the alias `host`.
    Connect { host: String },
}

/// The mathematical content of a [`SubCommand`].
pub enum SubCommandView {
    List,
    Connect { host: Seq<char> },
}

impl View for SubCommand {
    type V = SubCommandView;

    open spec fn view(&self) -> SubCommandView {
        match *self {
            SubCommand::List => SubCommandView::List,
            SubCommand::Connect { host } => SubCommandView::Connect { host: host@ },
        }
    }
}

/// What the caller has to carry out. None of these is a failure.
#[derive(Debug, PartialEq, Eq)]
pub enum Action {
    /// Print the table and end successfully.
    List { table: Vec<String> },
    /// Replace the running process by `program` with `args`. Control only
    /// comes back where that could not be done.
    Launch { program: String, args: Vec<String> },
    /// Print the notice, then the table of what is known, and end
    /// successfully.
    NotFound { notice: String, table: Vec<String> },
}

/// The mathematical content of an [`Action`].
pub enum ActionView {
    List { table: Seq<Seq<char>> },
    Launch { program: Seq<char>, args: Seq<Seq<char>> },
    NotFound { notice: Seq<char>, table: Seq<Seq<char>> },
}

impl ActionView {
    /// The status with which the process ends once the action is carried
    /// out: zero after a table or a notice. A launch has none of its own,
    /// since the process goes on as the SSH client.
    pub open spec fn exit_status(self) -> Option<i32> {
        if self is Launch {
            None
        } else {
            Some(0i32)
        }
    }
}

impl View for Action {
    type V = ActionView;

    open spec fn view(&self) -> ActionView {
        match *self {
            Action::List { table } => ActionView::List { table: texts(table@) },
            Action::Launch { program, args } => ActionView::Launch {
                program: program@,
                args: texts(args@),
            },
            Action::NotFound { notice, table } => ActionView::NotFound {
                notice: notice@,
                table: texts(table@),
            },
        }
    }
}

/// The name under which the SSH client is found on the search path.
pub open spec fn ssh_program() -> Seq<char> {
    "ssh"@
}

/// The notice for an alias that is not known.
pub open spec fn not_found_notice(alias: Seq<char>) -> Seq<char> {
    "no host found with name '"@ + alias + "'"@
}

/// The action that answers a command over a listing.
pub open spec fn plan(listing: Listing, command: SubCommandView) -> ActionView {
    match command {
        SubCommandView::List => ActionView::List { table: table(listing) },
        SubCommandView::Connect { host } => if has_alias(listing, host) {
            ActionView::Launch { program: ssh_program(), args: as_map(listing)[host].ssh_args() }
        } else {
            ActionView::NotFound { notice: not_found_notice(host), table: table(listing) }
        },
    }
}

/// Decides what to do for a command. Listing always lists. Connecting
/// looks the alias up, exactly as it is written: where it is known the
/// SSH client is to be launched on its host, and where it is not the user
/// is told so and shown every alias that is.
pub fn dispatch(registry: &Registry, command: &SubCommand) -> (action: Action)
    ensures
        action@ == plan(registry.listing(), command@),
{
    match command {
        SubCommand::List => Action::List { table: host_table(registry) },
        SubCommand::Connect { host } => match registry.get(host) {
            Some(entry) => Action::Launch {
                program: String::from_str("ssh"),
                args: entry.as_ssh_args(),
            },
            None => {
                let mut notice: String = String::from_str("no host found with name '");
                notice.append(host.as_str());
                notice.append("'");
                Action::NotFound { notice, table: host_table(registry) }
            },
        },
    }
}

impl Action {
    /// The status with which the process ends once the action is carried
    /// out, where it ends then.
    pub fn exit_code(&self) -> (code: Option<i32>)
        ensures
            code == self@.exit_status(),
    {
        match self {
            Action::Launch { .. } => None,
            _ => Some(0),
        }
    }
}

/// An alias that the registry does not hold is no failure: it is answered
/// by the notice that names it together with the complete table, in which
/// every alias that is held has its line, and the run ends with status zero.
pub proof fn lemma_unknown_alias_is_reported(listing: Listing, alias: Seq<char>)
    requires
        well_formed(listing),
        !as_map(listing).contains_key(alias),
    ensures
        plan(listing, SubCommandView::Connect { host: alias }) == (ActionView::NotFound {
            notice: not_found_notice(alias),
            table: table(listing),
        }),
        plan(listing, SubCommandView::Connect { host: alias }).exit_status() == Some(0i32),
        table(listing).len() == listing.len() + 2,
        forall|known: Seq<char>| #[trigger]
            as_map(listing).contains_key(known) ==> exists|i: int|
                0 <= i < listing.len() && (#[trigger] listing[i]).0 == known && table(listing)[i + 2]
                    == row(known, as_map(listing)[known].host, alias_width(listing)),
{
    lemma_table_rows(listing);
}

/// An alias that the registry holds leads to the SSH client, with the
/// arguments of the host it stands for.
pub proof fn lemma_known_alias_is_launched(listing: Listing, alias: Seq<char>)
    requires
        well_formed(listing),
        as_map(listing).contains_key(alias),
    ensures
        plan(listing, SubCommandView::Connect { host: alias }) == (ActionView::Launch {
            program: ssh_program(),
            args: as_map(listing)[alias].ssh_args(),
        }),
{
}

} // verus!
