//! The storage migration controller: runs the ordered chain of schema
//! steps from the stored version to the current one, exactly once, and
//! never regresses the version.

use vstd::prelude::*;

use crate::forum::Forum;
use crate::types::Releases;

verus! {

/// The state the migration controller leaves behind: every record as it
/// was, the storage version at the current generation.
pub open spec fn upgraded(s: Forum) -> Forum {
    Forum {
        config: s.config,
        forum_users: s.forum_users,
        moderators: s.moderators,
        categories: s.categories,
        threads: s.threads,
        posts: s.posts,
        category_by_moderator: s.category_by_moderator,
        forum_sudo: s.forum_sudo,
        storage_version: Releases::V2_0_0,
        events: s.events,
    }
}

/// Triggered on runtime upgrade: a no-op when the stored version is already
/// current, otherwise the step chain from the stored version.
pub fn on_runtime_upgrade(forum: &mut Forum)
    requires
        old(forum).wf(),
    ensures
        final(forum).wf(),
        *final(forum) == upgraded(*old(forum)),
{
    match forum.storage_version() {
        // Nothing if already upgraded.
        Releases::V2_0_0 => (),
        // Start the upgrade process.
        Releases::V1_0_0 => upgrade_v1_to_v2(forum),
    }
}

/// The single step currently in the chain: records need no re-encoding, so
/// it only advances the version, and does that last.
fn upgrade_v1_to_v2(forum: &mut Forum)
    requires
        old(forum).wf(),
    ensures
        final(forum).wf(),
        *final(forum) == upgraded(*old(forum)),
{
    forum.storage_version = Releases::V2_0_0;
}

/// Migration is idempotent: a second run of the upgrade path changes
/// nothing — neither the version nor any record.
pub proof fn lemma_migration_idempotent(s: Forum)
    ensures
        upgraded(upgraded(s)) == upgraded(s),
{
}

} // verus!
