//! Where the configuration is read from.

use crate::failure::Failure;
use vstd::prelude::*;
use vstd::string::*;

verus! {

/// The name of the configuration file in the home directory.
pub open spec fn default_file_name() -> Seq<char> {
    ".ssh_known_hosts.yml"@
}

/// The path of the file `name` in the directory `dir`. A separator goes
/// between them unless `dir` already ends in one; an empty `dir` leaves
/// `name` as it is.
pub open spec fn joined(dir: Seq<char>, name: Seq<char>) -> Seq<char> {
    if dir.len() == 0 || dir.last() == '/' {
        dir + name
    } else {
        dir + seq!['/'] + name
    }
}

/// The path to read: the explicit one where there is one, else the default
/// file in the home directory, and none where neither is known.
pub open spec fn location(explicit: Option<Seq<char>>, home: Option<Seq<char>>) -> Option<
    Seq<char>,
> {
    match explicit {
        Some(path) => Some(path),
        None => match home {
            Some(dir) => Some(joined(dir, default_file_name())),
            None => None,
        },
    }
}

/// The text of an optional string.
pub open spec fn text_of(value: Option<String>) -> Option<Seq<char>> {
    match value {
        Some(text) => Some(text@),
        None => None,
    }
}

/// The default configuration path for a home directory.
pub fn default_location(home: &str) -> (path: String)
    ensures
        path@ == joined(home@, default_file_name()),
{
    proof {
        reveal_strlit("/");
    }
    let mut path: String = String::from_str(home);
    let len = home.unicode_len();
    if len > 0 && home.get_char(len - 1) != '/' {
        path.append("/");
    }
    path.append(".ssh_known_hosts.yml");
    path
}

/// Picks the configuration path. A path given on the command line wins;
/// without one the default file in the home directory is taken, and
/// without a home directory either there is nowhere to look.
pub fn config_location(explicit: Option<String>, home: Option<String>) -> (result: Result<
    String,
    Failure,
>)
    ensures
        match result {
            Ok(path) => location(text_of(explicit), text_of(home)) == Some(path@),
            Err(failure) => {
                &&& location(text_of(explicit), text_of(home)) is None
                &&& failure is HomeDirectoryUnresolvable
            },
        },
{
    match explicit {
        Some(path) => Ok(path),
        None => match home {
            Some(dir) => Ok(default_location(dir.as_str())),
            None => Err(Failure::HomeDirectoryUnresolvable),
        },
    }
}

} // verus!
