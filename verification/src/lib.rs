//! A permissioned, deposit-gated discussion-forum state machine: a category
//! tree with soft deletion, threads and posts with one-way moderation,
//! role-based access control under a single forum sudo, exact deposit
//! accounting against a reservation ledger, and a schema-versioned storage
//! migration.

pub mod types;
pub mod tally;
pub mod ledger;
pub mod forum;
pub mod categories;
pub mod content;
pub mod migration;
pub mod laws;

pub use crate::forum::Forum;
pub use crate::ledger::{AccountRecord, Ledger};
pub use crate::types::{
    BlockchainTimestamp, Category, CategoryModeratorAssignment, Config, Error, Event, ForumUser,
    InputLengthConstraint, ModerationRecord, Moderator, Origin, Post, Releases, Thread,
};
