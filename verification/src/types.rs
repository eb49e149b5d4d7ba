//! Core data types of the forum: entities, configuration, errors, events.

use vstd::prelude::*;

verus! {

/// Why an operation was refused.
#[derive(Clone, Copy, PartialEq, Eq, Debug)]
pub enum Error {
    /// The caller lacks the required role or assignment.
    Authorization,
    /// A referenced id does not exist.
    NotFound,
    /// The target is archived, deleted or already moderated, or a
    /// non-empty category was asked to be deleted.
    InvalidState,
    /// A free-text field is outside its configured length bounds.
    InvalidTextLength,
    /// An administrative action was attempted while no forum sudo is
    /// configured and the caller is not the root authority.
    ForumSudoNotSet,
    /// The deposit reservation was rejected by the ledger.
    InsufficientBalance,
}

/// The authenticated provenance of a call, as handed in by the dispatcher.
#[derive(Clone, Copy, PartialEq, Eq, Debug)]
pub enum Origin {
    /// A transaction signed by an account.
    Signed(u64),
    /// The root authority of the surrounding runtime; it may bootstrap the
    /// forum sudo when none is set.
    Root,
}

/// Domain events emitted on successful mutations; delivery is the caller's
/// concern, the forum only records them in order.
#[derive(Clone, Copy, PartialEq, Eq, Debug)]
pub enum Event {
    CategoryCreated(u64),
    ForumUserCreated(u64),
    ModeratorCreated(u64),
    ThreadCreated(u64),
    PostCreated(u64),
    ThreadModerated(u64),
    PostModerated(u64),
    ForumSudoSet(Option<u64>),
}

/// Forum data storage version.
#[derive(Clone, Copy, PartialEq, Eq, Debug)]
pub enum Releases {
    V1_0_0,
    V2_0_0,
}

impl Default for Releases {
    fn default() -> (r: Self)
        ensures
            r == Releases::V1_0_0,
    {
        Releases::V1_0_0
    }
}

/// Convenient composite time stamp.
#[derive(Clone, Copy, PartialEq, Eq, Debug)]
pub struct BlockchainTimestamp {
    /// Current block number.
    pub block: u64,
    /// Time of block created.
    pub time: u64,
}

/// Builds a stamp from the block number and wall time that the host runtime
/// supplies; the forum itself never decides anything from them.
pub fn current_block_and_time(block: u64, time: u64) -> (r: BlockchainTimestamp)
    ensures
        r.block == block,
        r.time == time,
{
    BlockchainTimestamp { block, time }
}

/// Inclusive byte-length bounds for one kind of free-text field.
#[derive(Clone, Copy, PartialEq, Eq, Debug)]
pub struct InputLengthConstraint {
    pub min: u16,
    pub max: u16,
}

/// Whether a text of `len` bytes lies within the constraint.
pub open spec fn length_ok(c: InputLengthConstraint, len: nat) -> bool {
    c.min <= len && len <= c.max
}

impl InputLengthConstraint {
    /// The constraint checker: validates one byte length.
    pub fn check(&self, len: usize) -> (r: bool)
        ensures
            r == length_ok(*self, len as nat),
    {
        self.min as usize <= len && len <= self.max as usize
    }
}

/// The read-only configuration surface, fixed at genesis.
#[derive(Clone, Copy, PartialEq, Eq, Debug)]
pub struct Config {
    pub category_title_constraint: InputLengthConstraint,
    pub category_description_constraint: InputLengthConstraint,
    pub thread_title_constraint: InputLengthConstraint,
    pub post_text_constraint: InputLengthConstraint,
    pub moderation_rationale_constraint: InputLengthConstraint,
    /// Flat fee reserved for creating a thread.
    pub deposit_per_thread: u64,
    /// Flat fee reserved for creating a post.
    pub deposit_per_post: u64,
    /// Fee reserved per byte of a thread title.
    pub deposit_title_per_byte: u64,
    /// Fee reserved per byte of thread or post text.
    pub deposit_text_per_byte: u64,
}

/// A registered author; the key in the user map is the user's id.
#[derive(Clone, Copy, PartialEq, Eq, Debug)]
pub struct ForumUser {
    /// The account permitted to author threads and posts for this user.
    pub role_account: u64,
}

/// A registered moderator; powers come solely from category assignments.
#[derive(Clone, Copy, PartialEq, Eq, Debug)]
pub struct Moderator {
    /// The account permitted to act for this moderator.
    pub role_account: u64,
}

/// The reason a thread or post was removed, attached once and never changed.
#[derive(Clone, PartialEq, Eq, Debug)]
pub struct ModerationRecord {
    pub moderator_id: u64,
    pub rationale: Vec<u8>,
}

/// One node of the category tree; the key in the category map is its id.
#[derive(Clone, PartialEq, Eq, Debug)]
pub struct Category {
    /// `None` for a root category.
    pub parent: Option<u64>,
    pub title: Vec<u8>,
    pub description: Vec<u8>,
    /// Forbids new threads and posts; reversible.
    pub archived: bool,
    /// Terminal: no further mutation may target a deleted category.
    pub deleted: bool,
    /// Number of direct subcategories that are not deleted.
    pub child_count: u64,
    /// Number of threads ever created directly in this category.
    pub thread_count: u64,
}

impl Category {
    /// This category with its live-subcategory counter replaced.
    pub open spec fn with_child_count(self, n: u64) -> Category {
        Category {
            parent: self.parent,
            title: self.title,
            description: self.description,
            archived: self.archived,
            deleted: self.deleted,
            child_count: n,
            thread_count: self.thread_count,
        }
    }

    /// This category with its thread counter replaced.
    pub open spec fn with_thread_count(self, n: u64) -> Category {
        Category {
            parent: self.parent,
            title: self.title,
            description: self.description,
            archived: self.archived,
            deleted: self.deleted,
            child_count: self.child_count,
            thread_count: n,
        }
    }

    /// This category with its archived flag replaced.
    pub open spec fn with_archived(self, archived: bool) -> Category {
        Category {
            parent: self.parent,
            title: self.title,
            description: self.description,
            archived,
            deleted: self.deleted,
            child_count: self.child_count,
            thread_count: self.thread_count,
        }
    }

    /// This category marked deleted.
    pub open spec fn with_deleted(self) -> Category {
        Category {
            parent: self.parent,
            title: self.title,
            description: self.description,
            archived: self.archived,
            deleted: true,
            child_count: self.child_count,
            thread_count: self.thread_count,
        }
    }
}

/// A discussion thread; the key in the thread map is its id.
#[derive(Clone, PartialEq, Eq, Debug)]
pub struct Thread {
    pub category_id: u64,
    /// The forum user that opened the thread.
    pub author: u64,
    pub title: Vec<u8>,
    /// The thread's opening content.
    pub text: Vec<u8>,
    /// `Some` once the thread has been moderated; never cleared.
    pub moderation: Option<ModerationRecord>,
}

impl Thread {
    /// This thread with a moderation record attached.
    pub open spec fn with_moderation(self, m: ModerationRecord) -> Thread {
        Thread {
            category_id: self.category_id,
            author: self.author,
            title: self.title,
            text: self.text,
            moderation: Some(m),
        }
    }
}

/// A reply inside a thread; the key in the post map is its id.
#[derive(Clone, PartialEq, Eq, Debug)]
pub struct Post {
    pub thread_id: u64,
    /// The forum user that wrote the post.
    pub author: u64,
    pub text: Vec<u8>,
    /// `Some` once the post has been moderated; never cleared.
    pub moderation: Option<ModerationRecord>,
}

impl Post {
    /// This post with a moderation record attached.
    pub open spec fn with_moderation(self, m: ModerationRecord) -> Post {
        Post {
            thread_id: self.thread_id,
            author: self.author,
            text: self.text,
            moderation: Some(m),
        }
    }
}

/// One row of the moderator-to-category rights relation.
#[derive(Clone, Copy, PartialEq, Eq, Debug)]
pub struct CategoryModeratorAssignment {
    pub moderator_id: u64,
    pub category_id: u64,
    pub granted: bool,
}

/// `x` clamped into the `u64` range.
pub open spec fn clamp_u64(x: int) -> u64 {
    if x > u64::MAX {
        u64::MAX
    } else if x < 0 {
        0
    } else {
        x as u64
    }
}

/// Saturating addition on deposits.
pub fn sat_add(a: u64, b: u64) -> (r: u64)
    ensures
        r == clamp_u64(a + b),
{
    match a.checked_add(b) {
        Some(v) => v,
        None => u64::MAX,
    }
}

/// Saturating multiplication on deposits.
pub fn sat_mul(a: u64, b: u64) -> (r: u64)
    ensures
        r == clamp_u64(a * b),
{
    match a.checked_mul(b) {
        Some(v) => v,
        None => u64::MAX,
    }
}

/// The deposit owed for a new thread: a flat part plus per-byte parts for the
/// title and the opening text, saturating at the largest representable amount.
pub open spec fn thread_deposit(cfg: Config, title_len: nat, text_len: nat) -> u64 {
    clamp_u64(
        cfg.deposit_per_thread + cfg.deposit_title_per_byte * title_len
            + cfg.deposit_text_per_byte * text_len,
    )
}

/// The deposit owed for a new post, saturating likewise.
pub open spec fn post_deposit(cfg: Config, text_len: nat) -> u64 {
    clamp_u64(cfg.deposit_per_post + cfg.deposit_text_per_byte * text_len)
}

/// Computes `thread_deposit` executably.
pub fn compute_thread_deposit(cfg: &Config, title_len: usize, text_len: usize) -> (r: u64)
    ensures
        r == thread_deposit(*cfg, title_len as nat, text_len as nat),
{
    let title_part = sat_mul(cfg.deposit_title_per_byte, title_len as u64);
    let text_part = sat_mul(cfg.deposit_text_per_byte, text_len as u64);
    sat_add(sat_add(cfg.deposit_per_thread, title_part), text_part)
}

/// Computes `post_deposit` executably.
pub fn compute_post_deposit(cfg: &Config, text_len: usize) -> (r: u64)
    ensures
        r == post_deposit(*cfg, text_len as nat),
{
    let text_part = sat_mul(cfg.deposit_text_per_byte, text_len as u64);
    sat_add(cfg.deposit_per_post, text_part)
}

} // verus!
