//! Verified planning core of a credential store that keeps its entries in a
//! desktop secret-storage daemon.
//!
//! A credential is identified by a service and a user name, optionally
//! narrowed by a target. The daemon stores items in named collections and
//! finds them by attributes. This crate decides how the one is written down
//! as the other, how a collection name is resolved, and what is asked of
//! the daemon, in which order, for each operation on items and collections.
//!
//! The daemon is reached over a connection that this crate never touches.
//! Every operation is a session: a small state machine that names the next
//! call to put to the daemon, takes the daemon's reply, and eventually
//! finishes with a result. The caller supplies the function that performs a
//! call.
//!
//! - [`attributes`]: attribute sets.
//! - [`identity`]: credential identities, their attributes and labels.
//! - [`daemon`]: the calls that can be put to the daemon, and its replies.
//! - [`resolver`]: from a collection name to a usable collection.
//! - [`gateway`]: the operations, as sessions.
//! - [`driver`]: running a session to its end.
//! - [`error`]: how an operation fails.
//! - [`laws`]: what holds of every session, whatever the daemon replies.
//! - [`text`]: comparisons on names.

pub mod attributes;
pub mod daemon;
pub mod driver;
pub mod error;
pub mod gateway;
pub mod identity;
pub mod laws;
pub mod resolver;
pub mod text;
