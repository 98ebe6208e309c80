//! Linking of chat identities to game identities, and the bookkeeping that
//! keeps a fleet of remote whitelists consistent with the account records.
//!
//! The library decides and the caller acts. The two workflows, [`link`] and
//! [`unlink`], and the fan-out over the fleet, [`fleet`], are state machines:
//! each hands out the next thing to do and takes the report of how it went.
//! Nothing in here touches a network or a database.
//!
//! - [`model`] holds the records; [`error`] the errors of a whitelist command.
//! - [`remote`] writes the command for one server and reads its reply.
//! - [`fleet`] coordinates the attempts on the servers of the fleet.
//! - [`resolver`] reads the answers of the identity service.
//! - [`store`] specifies the account table and keeps one in memory.
//! - [`link`] and [`unlink`] are the workflows, with the laws that hold of
//!   every run of them in every [`world`].
//! - [`chat`] maps events of the chat platform to workflows, and outcomes to
//!   the texts that users read.
//! - [`text`] has the few operations on text that the rest relies on.

pub mod chat;
pub mod error;
pub mod fleet;
pub mod link;
pub mod model;
pub mod remote;
pub mod resolver;
pub mod store;
pub mod text;
pub mod unlink;
pub mod world;
