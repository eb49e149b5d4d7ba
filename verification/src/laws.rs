//! Laws that cut across several operations, stated over the operations'
//! decision functions and proved once and for all.

use vstd::prelude::*;

use crate::forum::Forum;
use crate::ledger::Ledger;
use crate::types::{Error, Origin};

verus! {

/// Deleting a category succeeds only on an empty subtree: success entails
/// both counters were zero, and a sudo caller aiming at a live category
/// with a nonzero live-subcategory or thread counter is refused as
/// `InvalidState`.
pub proof fn lemma_delete_requires_empty_subtree(s: Forum, origin: Origin, category_id: u64)
    ensures
        s.set_category_deleted_check(origin, category_id) is Ok ==> (s.category_at(
            category_id,
        ).child_count == 0 && s.category_at(category_id).thread_count == 0),
        (s.origin_is_forum_sudo(origin) && s.has_category(category_id) && !s.category_at(
            category_id,
        ).deleted && (s.category_at(category_id).child_count != 0 || s.category_at(
            category_id,
        ).thread_count != 0)) ==> s.set_category_deleted_check(origin, category_id) == Err::<
            (),
            Error,
        >(Error::InvalidState),
{
}

/// A deleted category is terminal: creating a subcategory under it,
/// opening a thread in it, or assigning a moderator to it can never
/// succeed, and fails with `InvalidState` once the caller itself is in
/// order.
pub proof fn lemma_deleted_category_rejects_all(
    s: Forum,
    ledger: Ledger,
    origin: Origin,
    forum_user_id: u64,
    moderator_id: u64,
    category_id: u64,
    title: Seq<u8>,
    description: Seq<u8>,
    text: Seq<u8>,
)
    requires
        s.has_category(category_id),
        s.category_at(category_id).deleted,
    ensures
        !(s.create_category_check(origin, Some(category_id), title, description) is Ok),
        !(s.create_thread_check(ledger, origin, forum_user_id, category_id, title, text) is Ok),
        !(s.assign_moderator_check(origin, moderator_id, category_id) is Ok),
        s.origin_is_forum_sudo(origin) ==> s.create_category_check(
            origin,
            Some(category_id),
            title,
            description,
        ) == Err::<(), Error>(Error::InvalidState),
        (s.origin_is_forum_sudo(origin) && s.has_moderator(moderator_id))
            ==> s.assign_moderator_check(origin, moderator_id, category_id) == Err::<(), Error>(
            Error::InvalidState,
        ),
        origin matches Origin::Signed(a) ==> ((s.has_forum_user(forum_user_id) && a
            == s.forum_user_at(forum_user_id).role_account) ==> s.create_thread_check(
            ledger,
            origin,
            forum_user_id,
            category_id,
            title,
            text,
        ) == Err::<(), Error>(Error::InvalidState)),
{
}

/// Thread moderation is one-way: an already-moderated thread rejects every
/// further moderation call, with `InvalidState` when the caller is
/// authorized. (That a rejected call leaves the attached record — and all
/// other state — unchanged is part of `moderate_thread`'s contract.)
pub proof fn lemma_thread_moderation_is_final(
    s: Forum,
    origin: Origin,
    moderator_id: u64,
    thread_id: u64,
    rationale: Seq<u8>,
)
    requires
        s.has_thread(thread_id),
        s.thread_at(thread_id).moderation is Some,
    ensures
        !(s.moderate_thread_check(origin, moderator_id, thread_id, rationale) is Ok),
        (s.has_moderator(moderator_id) && s.may_moderate(
            origin,
            moderator_id,
            s.thread_at(thread_id).category_id,
        )) ==> s.moderate_thread_check(origin, moderator_id, thread_id, rationale) == Err::<
            (),
            Error,
        >(Error::InvalidState),
{
}

/// Post moderation is one-way, exactly as thread moderation is.
pub proof fn lemma_post_moderation_is_final(
    s: Forum,
    origin: Origin,
    moderator_id: u64,
    post_id: u64,
    rationale: Seq<u8>,
)
    requires
        s.has_post(post_id),
        s.post_at(post_id).moderation is Some,
    ensures
        !(s.moderate_post_check(origin, moderator_id, post_id, rationale) is Ok),
        (s.has_moderator(moderator_id) && s.may_moderate(
            origin,
            moderator_id,
            s.thread_at(s.post_at(post_id).thread_id).category_id,
        )) ==> s.moderate_post_check(origin, moderator_id, post_id, rationale) == Err::<
            (),
            Error,
        >(Error::InvalidState),
{
}

} // verus!
