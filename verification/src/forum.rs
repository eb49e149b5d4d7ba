//! The forum state container: every persisted map and scalar, its
//! well-formedness invariant, genesis, the role registry and the read
//! surface. Category, thread and post operations live in their own modules
//! as further `impl` blocks on [`Forum`].
//!
//! Identifiers are monotonically increasing, allocated per entity kind
//! starting at 1 and never reused; the record with id `i` sits at index
//! `i - 1` of its table.

use vstd::prelude::*;

use crate::tally::count_where;
use crate::types::{
    Category, CategoryModeratorAssignment, Config, Error, Event, ForumUser, Moderator, Origin,
    Post, Releases, Thread,
};

verus! {

/// Is `c` a subcategory of the category with id `parent` that still counts,
/// that is, one that has not been soft-deleted?
pub open spec fn live_child_pred(parent: u64) -> spec_fn(Category) -> bool {
    |c: Category| !c.deleted && c.parent == Some(parent)
}

/// Does thread `t` belong directly to the category with id `category_id`?
pub open spec fn thread_in_pred(category_id: u64) -> spec_fn(Thread) -> bool {
    |t: Thread| t.category_id == category_id
}

/// The whole persisted state of the forum.
#[derive(Clone, PartialEq, Eq, Debug)]
pub struct Forum {
    /// Read-only configuration, fixed at genesis.
    pub config: Config,
    /// Forum users; id `i` at index `i - 1`.
    pub forum_users: Vec<ForumUser>,
    /// Moderators; id `i` at index `i - 1`.
    pub moderators: Vec<Moderator>,
    /// The category tree; id `i` at index `i - 1`.
    pub categories: Vec<Category>,
    /// Threads; id `i` at index `i - 1`.
    pub threads: Vec<Thread>,
    /// Posts; id `i` at index `i - 1`.
    pub posts: Vec<Post>,
    /// The moderator-to-category rights relation, one row per pair.
    pub category_by_moderator: Vec<CategoryModeratorAssignment>,
    /// The single administrative identity; `None` disables the capability.
    pub forum_sudo: Option<u64>,
    /// The schema generation currently materialized.
    pub storage_version: Releases,
    /// Emitted domain events, oldest first.
    pub events: Vec<Event>,
}

impl Forum {
    pub open spec fn has_forum_user(self, id: u64) -> bool {
        1 <= id <= self.forum_users@.len()
    }

    pub open spec fn forum_user_at(self, id: u64) -> ForumUser {
        self.forum_users@[id - 1]
    }

    pub open spec fn has_moderator(self, id: u64) -> bool {
        1 <= id <= self.moderators@.len()
    }

    pub open spec fn moderator_at(self, id: u64) -> Moderator {
        self.moderators@[id - 1]
    }

    pub open spec fn has_category(self, id: u64) -> bool {
        1 <= id <= self.categories@.len()
    }

    pub open spec fn category_at(self, id: u64) -> Category {
        self.categories@[id - 1]
    }

    pub open spec fn has_thread(self, id: u64) -> bool {
        1 <= id <= self.threads@.len()
    }

    pub open spec fn thread_at(self, id: u64) -> Thread {
        self.threads@[id - 1]
    }

    pub open spec fn has_post(self, id: u64) -> bool {
        1 <= id <= self.posts@.len()
    }

    pub open spec fn post_at(self, id: u64) -> Post {
        self.posts@[id - 1]
    }

    /// Is `origin` the forum sudo?
    pub open spec fn origin_is_forum_sudo(self, origin: Origin) -> bool {
        origin matches Origin::Signed(a) && self.forum_sudo == Some(a)
    }

    /// The error an administrative call fails with when its caller is not
    /// the forum sudo.
    pub open spec fn sudo_error(self) -> Error {
        if self.forum_sudo is None {
            Error::ForumSudoNotSet
        } else {
            Error::Authorization
        }
    }

    /// Who may replace the forum sudo: the current sudo, or the root
    /// authority (which bootstraps the very first assignment).
    pub open spec fn can_set_forum_sudo(self, origin: Origin) -> bool {
        origin is Root || self.origin_is_forum_sudo(origin)
    }

    pub open spec fn has_assignment(self, moderator_id: u64, category_id: u64) -> bool {
        exists|i: int|
            0 <= i < self.category_by_moderator@.len()
                && (#[trigger] self.category_by_moderator@[i]).moderator_id == moderator_id
                && self.category_by_moderator@[i].category_id == category_id
    }

    pub open spec fn assignment_index(self, moderator_id: u64, category_id: u64) -> int {
        choose|i: int|
            0 <= i < self.category_by_moderator@.len()
                && (#[trigger] self.category_by_moderator@[i]).moderator_id == moderator_id
                && self.category_by_moderator@[i].category_id == category_id
    }

    /// Does `moderator_id` currently hold moderation rights over
    /// `category_id`?
    pub open spec fn is_moderator_for(self, moderator_id: u64, category_id: u64) -> bool {
        self.has_assignment(moderator_id, category_id)
            && self.category_by_moderator@[self.assignment_index(moderator_id, category_id)].granted
    }

    /// Structural soundness of the category tree: a parent comes before its
    /// children and is never deleted while a live child points at it, and
    /// each node's counters agree with the records they summarize.
    pub open spec fn categories_wf(self) -> bool {
        forall|i: int|
            0 <= i < self.categories@.len() ==> {
                let c = #[trigger] self.categories@[i];
                &&& (c.parent matches Some(p) ==> 1 <= p <= i)
                &&& (c.parent matches Some(p) ==> (c.deleted || !self.categories@[p - 1].deleted))
                &&& c.child_count == count_where(self.categories@, live_child_pred((i + 1) as u64))
                &&& c.thread_count == count_where(self.threads@, thread_in_pred((i + 1) as u64))
            }
    }

    /// Every thread sits in an existing, never-deleted category, has a
    /// registered author, and any moderation record names a registered
    /// moderator.
    pub open spec fn threads_wf(self) -> bool {
        forall|i: int|
            0 <= i < self.threads@.len() ==> {
                let t = #[trigger] self.threads@[i];
                &&& 1 <= t.category_id <= self.categories@.len()
                &&& !self.categories@[t.category_id - 1].deleted
                &&& 1 <= t.author <= self.forum_users@.len()
                &&& (t.moderation matches Some(m) ==> 1 <= m.moderator_id
                    <= self.moderators@.len())
            }
    }

    /// Every post sits in an existing thread, has a registered author, and
    /// any moderation record names a registered moderator.
    pub open spec fn posts_wf(self) -> bool {
        forall|i: int|
            0 <= i < self.posts@.len() ==> {
                let p = #[trigger] self.posts@[i];
                &&& 1 <= p.thread_id <= self.threads@.len()
                &&& 1 <= p.author <= self.forum_users@.len()
                &&& (p.moderation matches Some(m) ==> 1 <= m.moderator_id
                    <= self.moderators@.len())
            }
    }

    /// The rights relation references existing parties and holds at most one
    /// row per (moderator, category) pair.
    pub open spec fn assignments_wf(self) -> bool {
        &&& forall|i: int|
            0 <= i < self.category_by_moderator@.len() ==> {
                let a = #[trigger] self.category_by_moderator@[i];
                &&& 1 <= a.moderator_id <= self.moderators@.len()
                &&& 1 <= a.category_id <= self.categories@.len()
            }
        &&& forall|i: int, j: int|
            0 <= i < self.category_by_moderator@.len() && 0 <= j
                < self.category_by_moderator@.len()
                && (#[trigger] self.category_by_moderator@[i]).moderator_id
                == (#[trigger] self.category_by_moderator@[j]).moderator_id
                && self.category_by_moderator@[i].category_id
                == self.category_by_moderator@[j].category_id ==> i == j
    }

    /// Room to allocate at least one more id of each kind.
    pub open spec fn lens_wf(self) -> bool {
        &&& self.forum_users@.len() < u64::MAX
        &&& self.moderators@.len() < u64::MAX
        &&& self.categories@.len() < u64::MAX
        &&& self.threads@.len() < u64::MAX
        &&& self.posts@.len() < u64::MAX
    }

    /// The forum's invariant; genesis establishes it and every operation
    /// preserves it.
    pub open spec fn wf(self) -> bool {
        &&& self.categories_wf()
        &&& self.threads_wf()
        &&& self.posts_wf()
        &&& self.assignments_wf()
        &&& self.lens_wf()
    }

    /// In a well-formed forum a matching row pins down an assignment's
    /// index.
    pub proof fn lemma_assignment_index_is(self, moderator_id: u64, category_id: u64, i: int)
        requires
            self.assignments_wf(),
            0 <= i < self.category_by_moderator@.len(),
            self.category_by_moderator@[i].moderator_id == moderator_id,
            self.category_by_moderator@[i].category_id == category_id,
        ensures
            self.has_assignment(moderator_id, category_id),
            self.assignment_index(moderator_id, category_id) == i,
            self.is_moderator_for(moderator_id, category_id)
                == self.category_by_moderator@[i].granted,
    {
        assert(self.has_assignment(moderator_id, category_id));
        let j = self.assignment_index(moderator_id, category_id);
        assert(0 <= j < self.category_by_moderator@.len()
            && self.category_by_moderator@[j].moderator_id == moderator_id
            && self.category_by_moderator@[j].category_id == category_id);
    }

    /// The empty forum, loaded with its configuration and the optional
    /// initial sudo; the storage version starts at the current generation.
    pub fn genesis(config: Config, forum_sudo: Option<u64>) -> (r: Forum)
        ensures
            r.wf(),
            r.config == config,
            r.forum_sudo == forum_sudo,
            r.storage_version == Releases::V2_0_0,
            r.forum_users@.len() == 0,
            r.moderators@.len() == 0,
            r.categories@.len() == 0,
            r.threads@.len() == 0,
            r.posts@.len() == 0,
            r.category_by_moderator@.len() == 0,
            r.events@.len() == 0,
    {
        Forum {
            config,
            forum_users: Vec::new(),
            moderators: Vec::new(),
            categories: Vec::new(),
            threads: Vec::new(),
            posts: Vec::new(),
            category_by_moderator: Vec::new(),
            forum_sudo,
            storage_version: Releases::V2_0_0,
            events: Vec::new(),
        }
    }

    /// Registers a forum user whose threads and posts `account_id` may
    /// author; returns the new id.
    pub fn create_forum_user(&mut self, account_id: u64) -> (r: u64)
        requires
            old(self).wf(),
            old(self).forum_users@.len() + 1 < u64::MAX,
        ensures
            final(self).wf(),
            r == old(self).forum_users@.len() + 1,
            final(self).forum_users@ == old(self).forum_users@.push(
                ForumUser { role_account: account_id },
            ),
            final(self).events@ == old(self).events@.push(Event::ForumUserCreated(r)),
            final(self).moderators == old(self).moderators,
            final(self).categories == old(self).categories,
            final(self).threads == old(self).threads,
            final(self).posts == old(self).posts,
            final(self).category_by_moderator == old(self).category_by_moderator,
            final(self).config == old(self).config,
            final(self).forum_sudo == old(self).forum_sudo,
            final(self).storage_version == old(self).storage_version,
    {
        let id = self.forum_users.len() as u64 + 1;
        self.forum_users.push(ForumUser { role_account: account_id });
        self.events.push(Event::ForumUserCreated(id));
        id
    }

    /// Registers a moderator acting through `account_id`; returns the new
    /// id. The moderator has no powers until assigned to a category.
    pub fn create_moderator(&mut self, account_id: u64) -> (r: u64)
        requires
            old(self).wf(),
            old(self).moderators@.len() + 1 < u64::MAX,
        ensures
            final(self).wf(),
            r == old(self).moderators@.len() + 1,
            final(self).moderators@ == old(self).moderators@.push(
                Moderator { role_account: account_id },
            ),
            final(self).events@ == old(self).events@.push(Event::ModeratorCreated(r)),
            final(self).forum_users == old(self).forum_users,
            final(self).categories == old(self).categories,
            final(self).threads == old(self).threads,
            final(self).posts == old(self).posts,
            final(self).category_by_moderator == old(self).category_by_moderator,
            final(self).config == old(self).config,
            final(self).forum_sudo == old(self).forum_sudo,
            final(self).storage_version == old(self).storage_version,
    {
        let id = self.moderators.len() as u64 + 1;
        self.moderators.push(Moderator { role_account: account_id });
        self.events.push(Event::ModeratorCreated(id));
        id
    }

    /// Hands the forum sudo slot to `new_sudo` (or clears it). Only the
    /// current sudo may do this; the root authority may as well, which
    /// covers the very first assignment.
    pub fn set_forum_sudo(&mut self, origin: Origin, new_sudo: Option<u64>) -> (r: Result<
        (),
        Error,
    >)
        requires
            old(self).wf(),
        ensures
            final(self).wf(),
            r is Ok <==> old(self).can_set_forum_sudo(origin),
            r is Err ==> r == Err::<(), Error>(old(self).sudo_error()) && *final(self) == *old(self),
            r is Ok ==> final(self).forum_sudo == new_sudo && final(self).events@ == old(self).events@.push(Event::ForumSudoSet(new_sudo)),
            final(self).forum_users == old(self).forum_users,
            final(self).moderators == old(self).moderators,
            final(self).categories == old(self).categories,
            final(self).threads == old(self).threads,
            final(self).posts == old(self).posts,
            final(self).category_by_moderator == old(self).category_by_moderator,
            final(self).config == old(self).config,
            final(self).storage_version == old(self).storage_version,
    {
        let allowed = match origin {
            Origin::Root => true,
            Origin::Signed(a) => match self.forum_sudo {
                Some(s) => a == s,
                None => false,
            },
        };
        if !allowed {
            return Err(self.sudo_error_value());
        }
        self.forum_sudo = new_sudo;
        self.events.push(Event::ForumSudoSet(new_sudo));
        Ok(())
    }

    /// The error an administrative caller that is not the sudo receives.
    fn sudo_error_value(&self) -> (r: Error)
        ensures
            r == self.sudo_error(),
    {
        match self.forum_sudo {
            None => Error::ForumSudoNotSet,
            Some(_) => Error::Authorization,
        }
    }

    /// Checks that `origin` is the forum sudo, yielding the error to fail
    /// with otherwise.
    pub(crate) fn ensure_forum_sudo(&self, origin: &Origin) -> (r: Result<(), Error>)
        ensures
            r is Ok <==> self.origin_is_forum_sudo(*origin),
            r is Err ==> r == Err::<(), Error>(self.sudo_error()),
    {
        let ok = match origin {
            Origin::Signed(a) => match self.forum_sudo {
                Some(s) => *a == s,
                None => false,
            },
            Origin::Root => false,
        };
        if ok {
            Ok(())
        } else {
            Err(self.sudo_error_value())
        }
    }

    /// What `assign_moderator_to_category` demands before it writes.
    pub open spec fn assign_moderator_check(
        self,
        origin: Origin,
        moderator_id: u64,
        category_id: u64,
    ) -> Result<(), Error> {
        if !self.origin_is_forum_sudo(origin) {
            Err(self.sudo_error())
        } else if !self.has_moderator(moderator_id) {
            Err(Error::NotFound)
        } else if !self.has_category(category_id) {
            Err(Error::NotFound)
        } else if self.category_at(category_id).deleted {
            Err(Error::InvalidState)
        } else {
            Ok(())
        }
    }

    /// Grants or revokes `moderator_id`'s moderation rights over
    /// `category_id`. Only the sudo may do this; the moderator and the
    /// category must exist and the category must not be deleted.
    pub fn assign_moderator_to_category(
        &mut self,
        origin: Origin,
        moderator_id: u64,
        category_id: u64,
        grant: bool,
    ) -> (r: Result<(), Error>)
        requires
            old(self).wf(),
            old(self).category_by_moderator@.len() < usize::MAX,
        ensures
            final(self).wf(),
            r is Ok <==> old(self).assign_moderator_check(origin, moderator_id, category_id)
                is Ok,
            r is Err ==> r == Err::<(), Error>(
                old(self).assign_moderator_check(origin, moderator_id, category_id)->Err_0,
            ) && *final(self) == *old(self),
            r is Ok ==> final(self).is_moderator_for(moderator_id, category_id) == grant && forall|
                m2: u64,
                c2: u64,
            |
                !(m2 == moderator_id && c2 == category_id) ==> final(self).is_moderator_for(m2, c2)
                    == old(self).is_moderator_for(m2, c2),
            final(self).forum_users == old(self).forum_users,
            final(self).moderators == old(self).moderators,
            final(self).categories == old(self).categories,
            final(self).threads == old(self).threads,
            final(self).posts == old(self).posts,
            final(self).config == old(self).config,
            final(self).forum_sudo == old(self).forum_sudo,
            final(self).storage_version == old(self).storage_version,
            final(self).events == old(self).events,
    {
        if let Err(e) = self.ensure_forum_sudo(&origin) {
            return Err(e);
        }
        if !(1 <= moderator_id && moderator_id <= self.moderators.len() as u64) {
            return Err(Error::NotFound);
        }
        if !(1 <= category_id && category_id <= self.categories.len() as u64) {
            return Err(Error::NotFound);
        }
        if self.categories[(category_id - 1) as usize].deleted {
            return Err(Error::InvalidState);
        }
        assert(self.assign_moderator_check(origin, moderator_id, category_id) is Ok);
        let n = self.category_by_moderator.len();
        let mut i: usize = 0;
        while i < n
            invariant
                n == self.category_by_moderator@.len(),
                i <= n,
                forall|j: int|
                    0 <= j < i
                        ==> !((#[trigger] self.category_by_moderator@[j]).moderator_id
                        == moderator_id && self.category_by_moderator@[j].category_id
                        == category_id),
                *self == *old(self),
                self.wf(),
                old(self).assign_moderator_check(origin, moderator_id, category_id) is Ok,
            decreases n - i,
        {
            let row = self.category_by_moderator[i];
            if row.moderator_id == moderator_id && row.category_id == category_id {
                let ghost prior = *self;
                self.category_by_moderator.set(
                    i,
                    CategoryModeratorAssignment { moderator_id, category_id, granted: grant },
                );
                proof {
                    self.lemma_upsert_set(prior, moderator_id, category_id, grant, i as int);
                }
                return Ok(());
            }
            i += 1;
        }
        let ghost prior = *self;
        self.category_by_moderator.push(
            CategoryModeratorAssignment { moderator_id, category_id, granted: grant },
        );
        proof {
            self.lemma_upsert_push(prior, moderator_id, category_id, grant);
        }
        Ok(())
    }

    /// After replacing the one matching row, the relation reads as granted
    /// (or not) for that pair and is untouched for every other pair.
    proof fn lemma_upsert_set(
        self,
        prior: Forum,
        moderator_id: u64,
        category_id: u64,
        grant: bool,
        i: int,
    )
        requires
            prior.wf(),
            0 <= i < prior.category_by_moderator@.len(),
            prior.category_by_moderator@[i].moderator_id == moderator_id,
            prior.category_by_moderator@[i].category_id == category_id,
            self.category_by_moderator@ == prior.category_by_moderator@.update(
                i,
                CategoryModeratorAssignment { moderator_id, category_id, granted: grant },
            ),
            self.moderators == prior.moderators,
            self.categories == prior.categories,
            self.threads == prior.threads,
            self.posts == prior.posts,
            self.forum_users == prior.forum_users,
        ensures
            self.assignments_wf(),
            self.is_moderator_for(moderator_id, category_id) == grant,
            forall|m2: u64, c2: u64|
                !(m2 == moderator_id && c2 == category_id) ==> self.is_moderator_for(m2, c2)
                    == prior.is_moderator_for(m2, c2),
    {
        assert forall|x: int, y: int|
            0 <= x < self.category_by_moderator@.len() && 0 <= y
                < self.category_by_moderator@.len()
                && (#[trigger] self.category_by_moderator@[x]).moderator_id
                == (#[trigger] self.category_by_moderator@[y]).moderator_id
                && self.category_by_moderator@[x].category_id
                == self.category_by_moderator@[y].category_id implies x == y by {
            assert(prior.category_by_moderator@[x].moderator_id
                == self.category_by_moderator@[x].moderator_id);
            assert(prior.category_by_moderator@[x].category_id
                == self.category_by_moderator@[x].category_id);
            assert(prior.category_by_moderator@[y].moderator_id
                == self.category_by_moderator@[y].moderator_id);
            assert(prior.category_by_moderator@[y].category_id
                == self.category_by_moderator@[y].category_id);
        }
        self.lemma_assignment_index_is(moderator_id, category_id, i);
        assert forall|m2: u64, c2: u64|
            !(m2 == moderator_id && c2 == category_id) implies self.is_moderator_for(m2, c2)
            == prior.is_moderator_for(m2, c2) by {
            if prior.has_assignment(m2, c2) {
                let j = prior.assignment_index(m2, c2);
                assert(j != i);
                assert(self.category_by_moderator@[j] == prior.category_by_moderator@[j]);
                self.lemma_assignment_index_is(m2, c2, j);
                prior.lemma_assignment_index_is(m2, c2, j);
            } else {
                if self.has_assignment(m2, c2) {
                    let j = self.assignment_index(m2, c2);
                    assert(j != i);
                    assert(prior.category_by_moderator@[j].moderator_id == m2);
                }
            }
        }
    }

    /// After appending a fresh row for a pair that had none, the relation
    /// reads as granted (or not) for that pair and is untouched for every
    /// other pair.
    proof fn lemma_upsert_push(self, prior: Forum, moderator_id: u64, category_id: u64, grant: bool)
        requires
            prior.wf(),
            forall|j: int|
                0 <= j < prior.category_by_moderator@.len()
                    ==> !((#[trigger] prior.category_by_moderator@[j]).moderator_id == moderator_id
                    && prior.category_by_moderator@[j].category_id == category_id),
            prior.has_moderator(moderator_id),
            prior.has_category(category_id),
            self.category_by_moderator@ == prior.category_by_moderator@.push(
                CategoryModeratorAssignment { moderator_id, category_id, granted: grant },
            ),
            self.moderators == prior.moderators,
            self.categories == prior.categories,
            self.threads == prior.threads,
            self.posts == prior.posts,
            self.forum_users == prior.forum_users,
        ensures
            self.assignments_wf(),
            self.is_moderator_for(moderator_id, category_id) == grant,
            forall|m2: u64, c2: u64|
                !(m2 == moderator_id && c2 == category_id) ==> self.is_moderator_for(m2, c2)
                    == prior.is_moderator_for(m2, c2),
    {
        let len = prior.category_by_moderator@.len() as int;
        assert forall|x: int, y: int|
            0 <= x < self.category_by_moderator@.len() && 0 <= y
                < self.category_by_moderator@.len()
                && (#[trigger] self.category_by_moderator@[x]).moderator_id
                == (#[trigger] self.category_by_moderator@[y]).moderator_id
                && self.category_by_moderator@[x].category_id
                == self.category_by_moderator@[y].category_id implies x == y by {
            if x < len && y < len {
                assert(prior.category_by_moderator@[x] == self.category_by_moderator@[x]);
                assert(prior.category_by_moderator@[y] == self.category_by_moderator@[y]);
            } else if x < len {
                assert(prior.category_by_moderator@[x] == self.category_by_moderator@[x]);
            } else if y < len {
                assert(prior.category_by_moderator@[y] == self.category_by_moderator@[y]);
            }
        }
        self.lemma_assignment_index_is(moderator_id, category_id, len);
        assert forall|m2: u64, c2: u64|
            !(m2 == moderator_id && c2 == category_id) implies self.is_moderator_for(m2, c2)
            == prior.is_moderator_for(m2, c2) by {
            if prior.has_assignment(m2, c2) {
                let j = prior.assignment_index(m2, c2);
                assert(self.category_by_moderator@[j] == prior.category_by_moderator@[j]);
                self.lemma_assignment_index_is(m2, c2, j);
                prior.lemma_assignment_index_is(m2, c2, j);
            } else {
                if self.has_assignment(m2, c2) {
                    let j = self.assignment_index(m2, c2);
                    assert(j != len);
                    assert(prior.category_by_moderator@[j].moderator_id == m2);
                }
            }
        }
    }

    /// Read predicate: is `id` a registered forum user?
    pub fn is_forum_user(&self, id: u64) -> (r: bool)
        ensures
            r == self.has_forum_user(id),
    {
        1 <= id && id <= self.forum_users.len() as u64
    }

    /// Read predicate: does `moderator_id` hold rights over `category_id`?
    pub fn is_moderator_of_category(&self, moderator_id: u64, category_id: u64) -> (r: bool)
        requires
            self.wf(),
        ensures
            r == self.is_moderator_for(moderator_id, category_id),
    {
        let n = self.category_by_moderator.len();
        let mut i: usize = 0;
        while i < n
            invariant
                n == self.category_by_moderator@.len(),
                i <= n,
                forall|j: int|
                    0 <= j < i
                        ==> !((#[trigger] self.category_by_moderator@[j]).moderator_id
                        == moderator_id && self.category_by_moderator@[j].category_id
                        == category_id),
                self.wf(),
            decreases n - i,
        {
            let row = self.category_by_moderator[i];
            if row.moderator_id == moderator_id && row.category_id == category_id {
                proof {
                    self.lemma_assignment_index_is(moderator_id, category_id, i as int);
                }
                return row.granted;
            }
            i += 1;
        }
        proof {
            if self.has_assignment(moderator_id, category_id) {
                let j = self.assignment_index(moderator_id, category_id);
                assert(self.category_by_moderator@[j].moderator_id == moderator_id);
            }
        }
        false
    }

    /// Read predicate: is `account` the forum sudo?
    pub fn is_sudo(&self, account: u64) -> (r: bool)
        ensures
            r == (self.forum_sudo == Some(account)),
    {
        match self.forum_sudo {
            Some(s) => s == account,
            None => false,
        }
    }

    pub fn next_forum_user_id(&self) -> (r: u64)
        requires
            self.wf(),
        ensures
            r == self.forum_users@.len() + 1,
    {
        self.forum_users.len() as u64 + 1
    }

    pub fn next_moderator_id(&self) -> (r: u64)
        requires
            self.wf(),
        ensures
            r == self.moderators@.len() + 1,
    {
        self.moderators.len() as u64 + 1
    }

    pub fn next_category_id(&self) -> (r: u64)
        requires
            self.wf(),
        ensures
            r == self.categories@.len() + 1,
    {
        self.categories.len() as u64 + 1
    }

    pub fn next_thread_id(&self) -> (r: u64)
        requires
            self.wf(),
        ensures
            r == self.threads@.len() + 1,
    {
        self.threads.len() as u64 + 1
    }

    pub fn next_post_id(&self) -> (r: u64)
        requires
            self.wf(),
        ensures
            r == self.posts@.len() + 1,
    {
        self.posts.len() as u64 + 1
    }

    pub fn forum_user_by_id(&self, id: u64) -> (r: Option<&ForumUser>)
        ensures
            self.has_forum_user(id) ==> (r matches Some(u) && *u == self.forum_user_at(id)),
            !self.has_forum_user(id) ==> r is None,
    {
        if 1 <= id && id <= self.forum_users.len() as u64 {
            Some(&self.forum_users[(id - 1) as usize])
        } else {
            None
        }
    }

    pub fn moderator_by_id(&self, id: u64) -> (r: Option<&Moderator>)
        ensures
            self.has_moderator(id) ==> (r matches Some(m) && *m == self.moderator_at(id)),
            !self.has_moderator(id) ==> r is None,
    {
        if 1 <= id && id <= self.moderators.len() as u64 {
            Some(&self.moderators[(id - 1) as usize])
        } else {
            None
        }
    }

    pub fn category_by_id(&self, id: u64) -> (r: Option<&Category>)
        ensures
            self.has_category(id) ==> (r matches Some(c) && *c == self.category_at(id)),
            !self.has_category(id) ==> r is None,
    {
        if 1 <= id && id <= self.categories.len() as u64 {
            Some(&self.categories[(id - 1) as usize])
        } else {
            None
        }
    }

    pub fn thread_by_id(&self, id: u64) -> (r: Option<&Thread>)
        ensures
            self.has_thread(id) ==> (r matches Some(t) && *t == self.thread_at(id)),
            !self.has_thread(id) ==> r is None,
    {
        if 1 <= id && id <= self.threads.len() as u64 {
            Some(&self.threads[(id - 1) as usize])
        } else {
            None
        }
    }

    pub fn post_by_id(&self, id: u64) -> (r: Option<&Post>)
        ensures
            self.has_post(id) ==> (r matches Some(p) && *p == self.post_at(id)),
            !self.has_post(id) ==> r is None,
    {
        if 1 <= id && id <= self.posts.len() as u64 {
            Some(&self.posts[(id - 1) as usize])
        } else {
            None
        }
    }

    /// The schema generation currently materialized.
    pub fn storage_version(&self) -> (r: Releases)
        ensures
            r == self.storage_version,
    {
        self.storage_version
    }
}

} // verus!
