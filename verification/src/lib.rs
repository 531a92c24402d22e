//! Alias resolution for SSH hosts.
//!
//! A configuration document names hosts by short aliases. It is loaded into
//! a [`registry::Registry`], which is then only read: to look an alias up, to
//! build the argument list that connects to its host, and to lay all
//! aliases out as a table. [`dispatch::dispatch`] decides which of these a
//! command asks for. Reading files, printing and starting the SSH client are
//! left to the caller.

pub mod dispatch;
pub mod failure;
pub mod host;
pub mod location;
pub mod registry;
pub mod source;
pub mod table;
pub mod text;
