//! The category tree manager: creating, archiving and soft-deleting
//! categories. All three are administrative calls, open to the forum sudo
//! alone.

use vstd::prelude::*;

use crate::forum::{live_child_pred, thread_in_pred, Forum};
use crate::tally::{
    count_where, lemma_count_where_at_least_one, lemma_count_where_le_len, lemma_count_where_none,
    lemma_count_where_push, lemma_count_where_update,
};
use crate::types::{length_ok, Category, Error, Event, Origin};

verus! {

impl Forum {
    /// What `create_category` demands before it writes: a sudo caller, a
    /// live parent (when one is named), and titles within bounds.
    pub open spec fn create_category_check(
        self,
        origin: Origin,
        parent: Option<u64>,
        title: Seq<u8>,
        description: Seq<u8>,
    ) -> Result<(), Error> {
        if !self.origin_is_forum_sudo(origin) {
            Err(self.sudo_error())
        } else if parent matches Some(p) && !self.has_category(p) {
            Err(Error::NotFound)
        } else if parent matches Some(p) && self.category_at(p).deleted {
            Err(Error::InvalidState)
        } else if !length_ok(self.config.category_title_constraint, title.len()) || !length_ok(
            self.config.category_description_constraint,
            description.len(),
        ) {
            Err(Error::InvalidTextLength)
        } else {
            Ok(())
        }
    }

    /// Adds a category under `parent` (or at the root), incrementing the
    /// parent's live-subcategory counter; returns the new id.
    pub fn create_category(
        &mut self,
        origin: Origin,
        parent: Option<u64>,
        title: Vec<u8>,
        description: Vec<u8>,
    ) -> (r: Result<u64, Error>)
        requires
            old(self).wf(),
            old(self).categories@.len() + 1 < u64::MAX,
        ensures
            final(self).wf(),
            old(self).create_category_check(origin, parent, title@, description@) matches Err(e)
                ==> (r == Err::<u64, Error>(e) && *final(self) == *old(self)),
            old(self).create_category_check(origin, parent, title@, description@) is Ok ==> ({
                &&& r == Ok::<u64, Error>((old(self).categories@.len() + 1) as u64)
                &&& final(self).categories@.len() == old(self).categories@.len() + 1
                &&& final(self).categories@.last() == (Category {
                    parent,
                    title,
                    description,
                    archived: false,
                    deleted: false,
                    child_count: 0,
                    thread_count: 0,
                })
                &&& (parent matches Some(p) ==> final(self).categories@[p - 1] == old(self).category_at(p).with_child_count(
                    (old(self).category_at(p).child_count + 1) as u64,
                ) && (forall|j: int|
                    0 <= j < old(self).categories@.len() && j != p - 1
                        ==> final(self).categories@[j] == old(self).categories@[j]))
                &&& (parent is None ==> (forall|j: int|
                    0 <= j < old(self).categories@.len() ==> final(self).categories@[j] == old(self).categories@[j]))
                &&& final(self).events@ == old(self).events@.push(
                    Event::CategoryCreated((old(self).categories@.len() + 1) as u64),
                )
            }),
            final(self).forum_users == old(self).forum_users,
            final(self).moderators == old(self).moderators,
            final(self).threads == old(self).threads,
            final(self).posts == old(self).posts,
            final(self).category_by_moderator == old(self).category_by_moderator,
            final(self).config == old(self).config,
            final(self).forum_sudo == old(self).forum_sudo,
            final(self).storage_version == old(self).storage_version,
    {
        if let Err(e) = self.ensure_forum_sudo(&origin) {
            return Err(e);
        }
        if let Some(p) = parent {
            if !(1 <= p && p <= self.categories.len() as u64) {
                return Err(Error::NotFound);
            }
            if self.categories[(p - 1) as usize].deleted {
                return Err(Error::InvalidState);
            }
        }
        if !self.config.category_title_constraint.check(title.len())
            || !self.config.category_description_constraint.check(description.len()) {
            return Err(Error::InvalidTextLength);
        }
        let id = self.categories.len() as u64 + 1;
        let ghost prior = *self;
        if let Some(p) = parent {
            let idx = (p - 1) as usize;
            proof {
                lemma_count_where_le_len(self.categories@, live_child_pred(p));
            }
            let elem = &mut self.categories[idx];
            elem.child_count = elem.child_count + 1;
        }
        let new_cat = Category {
            parent,
            title,
            description,
            archived: false,
            deleted: false,
            child_count: 0,
            thread_count: 0,
        };
        self.categories.push(new_cat);
        self.events.push(Event::CategoryCreated(id));
        proof {
            self.lemma_wf_after_create_category(prior, parent);
        }
        Ok(id)
    }

    /// Restores the invariant after a category was appended and (when it has
    /// a parent) the parent's live-subcategory counter was incremented.
    proof fn lemma_wf_after_create_category(self, prior: Forum, parent: Option<u64>)
        requires
            prior.wf(),
            prior.categories@.len() + 1 < u64::MAX,
            parent matches Some(p) ==> (prior.has_category(p) && !prior.category_at(p).deleted),
            ({
                let base = match parent {
                    Option::None => prior.categories@,
                    Option::Some(p) => prior.categories@.update(
                        p - 1,
                        prior.category_at(p).with_child_count(
                            (prior.category_at(p).child_count + 1) as u64,
                        ),
                    ),
                };
                &&& self.categories@.len() == base.len() + 1
                &&& self.categories@ == base.push(self.categories@.last())
            }),
            self.categories@.last().parent == parent,
            !self.categories@.last().deleted,
            self.categories@.last().child_count == 0,
            self.categories@.last().thread_count == 0,
            self.threads == prior.threads,
            self.posts == prior.posts,
            self.forum_users == prior.forum_users,
            self.moderators == prior.moderators,
            self.category_by_moderator == prior.category_by_moderator,
        ensures
            self.wf(),
    {
        let cats0 = prior.categories@;
        let cats1 = self.categories@;
        let n = cats0.len() as int;
        let new_cat = cats1.last();
        assert forall|i: int| 0 <= i < cats1.len() implies {
            let c = #[trigger] cats1[i];
            &&& (c.parent matches Some(p) ==> 1 <= p <= i)
            &&& (c.parent matches Some(p) ==> (c.deleted || !cats1[p - 1].deleted))
            &&& c.child_count == count_where(cats1, live_child_pred((i + 1) as u64))
            &&& c.thread_count == count_where(self.threads@, thread_in_pred((i + 1) as u64))
        } by {
            let cid = (i + 1) as u64;
            let pred = live_child_pred(cid);
            let tpred = thread_in_pred(cid);
            match parent {
                Option::None => {
                    lemma_count_where_push(cats0, pred, new_cat);
                }
                Option::Some(p) => {
                    let upd = prior.category_at(p).with_child_count(
                        (prior.category_at(p).child_count + 1) as u64,
                    );
                    lemma_count_where_update(cats0, pred, p - 1, upd);
                    lemma_count_where_push(cats0.update(p - 1, upd), pred, new_cat);
                    lemma_count_where_le_len(cats0, live_child_pred(p));
                }
            }
            if i < n {
                assert(cats0[i].child_count == count_where(cats0, pred));
                assert(cats0[i].thread_count == count_where(prior.threads@, tpred));
            } else {
                assert(i == n);
                assert forall|j: int| 0 <= j < cats1.len() implies !pred(#[trigger] cats1[j]) by {
                    if j < n {
                        assert(cats1[j].parent == cats0[j].parent);
                        assert(cats0[j].parent matches Some(q) ==> 1 <= q <= j);
                    }
                }
                lemma_count_where_none(cats1, pred);
                assert forall|j: int|
                    0 <= j < self.threads@.len() implies !tpred(#[trigger] self.threads@[j]) by {
                    assert(1 <= self.threads@[j].category_id <= n);
                }
                lemma_count_where_none(self.threads@, tpred);
            }
        }
        assert(self.categories_wf());
        assert forall|i: int| 0 <= i < self.threads@.len() implies {
            let t = #[trigger] self.threads@[i];
            &&& 1 <= t.category_id <= self.categories@.len()
            &&& !self.categories@[t.category_id - 1].deleted
            &&& 1 <= t.author <= self.forum_users@.len()
            &&& (t.moderation matches Some(m) ==> 1 <= m.moderator_id <= self.moderators@.len())
        } by {
            let ci = self.threads@[i].category_id - 1;
            assert(prior.threads@[i] == self.threads@[i]);
            assert(1 <= self.threads@[i].category_id <= n);
            assert(cats1[ci].deleted == cats0[ci].deleted);
        }
        assert(self.threads_wf());
        assert(self.posts_wf());
        assert(self.assignments_wf());
    }

    /// What `set_category_archived` demands: a sudo caller and an existing,
    /// not-deleted category.
    pub open spec fn set_category_archived_check(self, origin: Origin, category_id: u64) -> Result<
        (),
        Error,
    > {
        if !self.origin_is_forum_sudo(origin) {
            Err(self.sudo_error())
        } else if !self.has_category(category_id) {
            Err(Error::NotFound)
        } else if self.category_at(category_id).deleted {
            Err(Error::InvalidState)
        } else {
            Ok(())
        }
    }

    /// Sets or clears a category's archived flag. Archiving forbids new
    /// threads and posts but leaves existing content and moderation alone;
    /// it is reversible.
    pub fn set_category_archived(&mut self, origin: Origin, category_id: u64, archived: bool) -> (r:
        Result<(), Error>)
        requires
            old(self).wf(),
        ensures
            final(self).wf(),
            old(self).set_category_archived_check(origin, category_id) matches Err(e) ==> (r
                == Err::<(), Error>(e) && *final(self) == *old(self)),
            old(self).set_category_archived_check(origin, category_id) is Ok ==> ({
                &&& r is Ok
                &&& final(self).categories@ == old(self).categories@.update(
                    category_id - 1,
                    old(self).category_at(category_id).with_archived(archived),
                )
            }),
            final(self).forum_users == old(self).forum_users,
            final(self).moderators == old(self).moderators,
            final(self).threads == old(self).threads,
            final(self).posts == old(self).posts,
            final(self).category_by_moderator == old(self).category_by_moderator,
            final(self).config == old(self).config,
            final(self).forum_sudo == old(self).forum_sudo,
            final(self).storage_version == old(self).storage_version,
            final(self).events == old(self).events,
    {
        if let Err(e) = self.ensure_forum_sudo(&origin) {
            return Err(e);
        }
        if !(1 <= category_id && category_id <= self.categories.len() as u64) {
            return Err(Error::NotFound);
        }
        let idx = (category_id - 1) as usize;
        if self.categories[idx].deleted {
            return Err(Error::InvalidState);
        }
        let ghost prior = *self;
        {
            let elem = &mut self.categories[idx];
            elem.archived = archived;
        }
        proof {
            let cats0 = prior.categories@;
            let cats1 = self.categories@;
            let t = category_id - 1;
            assert forall|i: int| 0 <= i < cats1.len() implies {
                let c = #[trigger] cats1[i];
                &&& (c.parent matches Some(p) ==> 1 <= p <= i)
                &&& (c.parent matches Some(p) ==> (c.deleted || !cats1[p - 1].deleted))
                &&& c.child_count == count_where(cats1, live_child_pred((i + 1) as u64))
                &&& c.thread_count == count_where(self.threads@, thread_in_pred((i + 1) as u64))
            } by {
                let pred = live_child_pred((i + 1) as u64);
                lemma_count_where_update(cats0, pred, t, cats0[t].with_archived(archived));
                assert(cats0[i].child_count == count_where(cats0, pred));
            }
            assert(self.categories_wf());
            assert forall|i: int| 0 <= i < self.threads@.len() implies {
                let th = #[trigger] self.threads@[i];
                &&& 1 <= th.category_id <= self.categories@.len()
                &&& !self.categories@[th.category_id - 1].deleted
                &&& 1 <= th.author <= self.forum_users@.len()
                &&& (th.moderation matches Some(m) ==> 1 <= m.moderator_id
                    <= self.moderators@.len())
            } by {
                let ci = self.threads@[i].category_id - 1;
                assert(cats1[ci].deleted == cats0[ci].deleted);
            }
            assert(self.threads_wf());
        }
        Ok(())
    }

    /// What `set_category_deleted` demands: a sudo caller, an existing
    /// category not yet deleted, and an empty subtree — no live
    /// subcategories and no threads ever created in it.
    pub open spec fn set_category_deleted_check(self, origin: Origin, category_id: u64) -> Result<
        (),
        Error,
    > {
        if !self.origin_is_forum_sudo(origin) {
            Err(self.sudo_error())
        } else if !self.has_category(category_id) {
            Err(Error::NotFound)
        } else if self.category_at(category_id).deleted {
            Err(Error::InvalidState)
        } else if self.category_at(category_id).child_count != 0 || self.category_at(
            category_id,
        ).thread_count != 0 {
            Err(Error::InvalidState)
        } else {
            Ok(())
        }
    }

    /// Marks a category deleted — a terminal state — and releases it from
    /// its parent's live-subcategory counter. Only an empty category (no
    /// live subcategories, no threads) may go.
    pub fn set_category_deleted(&mut self, origin: Origin, category_id: u64) -> (r: Result<
        (),
        Error,
    >)
        requires
            old(self).wf(),
        ensures
            final(self).wf(),
            old(self).set_category_deleted_check(origin, category_id) matches Err(e) ==> (r
                == Err::<(), Error>(e) && *final(self) == *old(self)),
            old(self).set_category_deleted_check(origin, category_id) is Ok ==> ({
                &&& r is Ok
                &&& final(self).categories@.len() == old(self).categories@.len()
                &&& final(self).categories@[category_id - 1] == old(self).category_at(
                    category_id,
                ).with_deleted()
                &&& (old(self).category_at(category_id).parent matches Some(p) ==> final(self).categories@[p - 1] == old(self).category_at(p).with_child_count(
                    (old(self).category_at(p).child_count - 1) as u64,
                ) && (forall|j: int|
                    0 <= j < old(self).categories@.len() && j != category_id - 1 && j != p - 1
                        ==> final(self).categories@[j] == old(self).categories@[j]))
                &&& (old(self).category_at(category_id).parent is None ==> (forall|j: int|
                    0 <= j < old(self).categories@.len() && j != category_id - 1 ==> final(self).categories@[j] == old(self).categories@[j]))
            }),
            final(self).forum_users == old(self).forum_users,
            final(self).moderators == old(self).moderators,
            final(self).threads == old(self).threads,
            final(self).posts == old(self).posts,
            final(self).category_by_moderator == old(self).category_by_moderator,
            final(self).config == old(self).config,
            final(self).forum_sudo == old(self).forum_sudo,
            final(self).storage_version == old(self).storage_version,
            final(self).events == old(self).events,
    {
        if let Err(e) = self.ensure_forum_sudo(&origin) {
            return Err(e);
        }
        if !(1 <= category_id && category_id <= self.categories.len() as u64) {
            return Err(Error::NotFound);
        }
        let idx = (category_id - 1) as usize;
        if self.categories[idx].deleted {
            return Err(Error::InvalidState);
        }
        if self.categories[idx].child_count != 0 || self.categories[idx].thread_count != 0 {
            return Err(Error::InvalidState);
        }
        let ghost prior = *self;
        let parent = self.categories[idx].parent;
        {
            let elem = &mut self.categories[idx];
            elem.deleted = true;
        }
        if let Some(p) = parent {
            proof {
                lemma_count_where_at_least_one(
                    prior.categories@,
                    live_child_pred(p),
                    category_id - 1,
                );
                assert(prior.category_at(p).child_count >= 1);
                assert(self.categories@[p - 1] == prior.categories@[p - 1]);
            }
            let pidx = (p - 1) as usize;
            let elem = &mut self.categories[pidx];
            elem.child_count = elem.child_count - 1;
        }
        proof {
            self.lemma_wf_after_delete_category(prior, category_id, parent);
        }
        Ok(())
    }

    /// Restores the invariant after a category with an empty subtree was
    /// marked deleted and its parent's counter decremented.
    proof fn lemma_wf_after_delete_category(
        self,
        prior: Forum,
        category_id: u64,
        parent: Option<u64>,
    )
        requires
            prior.wf(),
            prior.has_category(category_id),
            !prior.category_at(category_id).deleted,
            prior.category_at(category_id).child_count == 0,
            prior.category_at(category_id).thread_count == 0,
            parent == prior.category_at(category_id).parent,
            ({
                let mid = prior.categories@.update(
                    category_id - 1,
                    prior.category_at(category_id).with_deleted(),
                );
                self.categories@ == match parent {
                    Option::None => mid,
                    Option::Some(p) => mid.update(
                        p - 1,
                        prior.category_at(p).with_child_count(
                            (prior.category_at(p).child_count - 1) as u64,
                        ),
                    ),
                }
            }),
            self.threads == prior.threads,
            self.posts == prior.posts,
            self.forum_users == prior.forum_users,
            self.moderators == prior.moderators,
            self.category_by_moderator == prior.category_by_moderator,
        ensures
            self.wf(),
    {
        let cats0 = prior.categories@;
        let cats1 = self.categories@;
        let n = cats0.len() as int;
        let t = category_id - 1;
        let dead = prior.category_at(category_id).with_deleted();
        let mid = cats0.update(t, dead);
        match parent {
            Option::Some(p) => lemma_count_where_at_least_one(cats0, live_child_pred(p), t),
            Option::None => (),
        }
        assert forall|i: int| 0 <= i < cats1.len() implies {
            let c = #[trigger] cats1[i];
            &&& (c.parent matches Some(p) ==> 1 <= p <= i)
            &&& (c.parent matches Some(p) ==> (c.deleted || !cats1[p - 1].deleted))
            &&& c.child_count == count_where(cats1, live_child_pred((i + 1) as u64))
            &&& c.thread_count == count_where(self.threads@, thread_in_pred((i + 1) as u64))
        } by {
            let cid = (i + 1) as u64;
            let pred = live_child_pred(cid);
            lemma_count_where_update(cats0, pred, t, dead);
            match parent {
                Option::Some(p) => lemma_count_where_update(
                    mid,
                    pred,
                    p - 1,
                    prior.category_at(p).with_child_count(
                        (prior.category_at(p).child_count - 1) as u64,
                    ),
                ),
                Option::None => (),
            }
            assert(cats0[i].child_count == count_where(cats0, pred));
            assert(cats0[i].thread_count == count_where(
                prior.threads@,
                thread_in_pred((i + 1) as u64),
            ));
            // A live child of the deleted category would contradict its zero
            // counter.
            match cats1[i].parent {
                Option::Some(q) => {
                    if !cats1[i].deleted && q == category_id {
                        assert(i != t);
                        assert(cats0[i].parent == cats1[i].parent && cats0[i].deleted == cats1[i].deleted);
                        lemma_count_where_at_least_one(cats0, live_child_pred(category_id), i);
                        assert(false);
                    }
                },
                Option::None => (),
            }
        }
        assert(self.categories_wf());
        assert forall|i: int| 0 <= i < self.threads@.len() implies {
            let th = #[trigger] self.threads@[i];
            &&& 1 <= th.category_id <= self.categories@.len()
            &&& !self.categories@[th.category_id - 1].deleted
            &&& 1 <= th.author <= self.forum_users@.len()
            &&& (th.moderation matches Some(m) ==> 1 <= m.moderator_id <= self.moderators@.len())
        } by {
            let ci = self.threads@[i].category_id - 1;
            if self.threads@[i].category_id == category_id {
                lemma_count_where_at_least_one(prior.threads@, thread_in_pred(category_id), i);
                assert(false);
            }
            assert(cats1[ci].deleted == cats0[ci].deleted);
        }
        assert(self.threads_wf());
        assert(self.posts_wf());
        assert(self.assignments_wf());
    }
}

} // verus!
