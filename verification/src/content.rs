//! The thread and post store and the moderation engine. Content creation is
//! gated by a deposit reserved from the author's account before any record
//! is written; moderation attaches an immutable record and leaves the
//! deposit with the ledger's reserve.

use vstd::prelude::*;

use crate::forum::{live_child_pred, thread_in_pred, Forum};
use crate::ledger::Ledger;
use crate::tally::{
    count_where, lemma_count_where_le_len, lemma_count_where_push, lemma_count_where_update,
};
use crate::types::{
    compute_post_deposit, compute_thread_deposit, length_ok, post_deposit, thread_deposit, Error,
    Event, ModerationRecord, Origin, Post, Thread,
};

verus! {

impl Forum {
    /// What `create_thread` demands before it writes: a registered author
    /// calling through its own account, a live and unarchived category,
    /// texts within bounds, and a free balance covering the deposit.
    pub open spec fn create_thread_check(
        self,
        ledger: Ledger,
        origin: Origin,
        forum_user_id: u64,
        category_id: u64,
        title: Seq<u8>,
        text: Seq<u8>,
    ) -> Result<(), Error> {
        if !self.has_forum_user(forum_user_id) {
            Err(Error::NotFound)
        } else {
            match origin {
                Origin::Root => Err(Error::Authorization),
                Origin::Signed(a) => {
                    if a != self.forum_user_at(forum_user_id).role_account {
                        Err(Error::Authorization)
                    } else if !self.has_category(category_id) {
                        Err(Error::NotFound)
                    } else if self.category_at(category_id).deleted || self.category_at(
                        category_id,
                    ).archived {
                        Err(Error::InvalidState)
                    } else if !length_ok(self.config.thread_title_constraint, title.len())
                        || !length_ok(self.config.post_text_constraint, text.len()) {
                        Err(Error::InvalidTextLength)
                    } else if thread_deposit(self.config, title.len(), text.len())
                        > ledger.free_of(a) {
                        Err(Error::InsufficientBalance)
                    } else {
                        Ok(())
                    }
                },
            }
        }
    }

    /// Opens a thread in `category_id` authored by `forum_user_id`, whose
    /// opening content is `text`. The deposit — a flat part plus per-byte
    /// parts — is reserved from the caller before any record is written, so
    /// a rejected reservation leaves no trace.
    pub fn create_thread(
        &mut self,
        ledger: &mut Ledger,
        origin: Origin,
        forum_user_id: u64,
        category_id: u64,
        title: Vec<u8>,
        text: Vec<u8>,
    ) -> (r: Result<u64, Error>)
        requires
            old(self).wf(),
            old(ledger).wf(),
            old(self).threads@.len() + 1 < u64::MAX,
        ensures
            final(self).wf(),
            final(ledger).wf(),
            old(self).create_thread_check(
                *old(ledger),
                origin,
                forum_user_id,
                category_id,
                title@,
                text@,
            ) matches Err(e) ==> (r == Err::<u64, Error>(e) && *final(self) == *old(self) && *final(ledger) == *old(ledger)),
            origin matches Origin::Signed(acct) ==> (old(self).create_thread_check(
                *old(ledger),
                origin,
                forum_user_id,
                category_id,
                title@,
                text@,
            ) is Ok ==> ({
                let deposit = thread_deposit(old(self).config, title@.len(), text@.len());
                &&& r == Ok::<u64, Error>((old(self).threads@.len() + 1) as u64)
                &&& final(self).threads@ == old(self).threads@.push(
                    Thread {
                        category_id,
                        author: forum_user_id,
                        title,
                        text,
                        moderation: None,
                    },
                )
                &&& final(self).categories@ == old(self).categories@.update(
                    category_id - 1,
                    old(self).category_at(category_id).with_thread_count(
                        (old(self).category_at(category_id).thread_count + 1) as u64,
                    ),
                )
                &&& final(self).events@ == old(self).events@.push(
                    Event::ThreadCreated((old(self).threads@.len() + 1) as u64),
                )
                &&& final(ledger).free_of(acct) == old(ledger).free_of(acct) - deposit
                &&& final(ledger).reserved_of(acct) == old(ledger).reserved_of(acct) + deposit
                &&& (forall|a: u64|
                    a != acct ==> final(ledger).free_of(a) == old(ledger).free_of(a) && final(ledger).reserved_of(a) == old(ledger).reserved_of(a))
            })),
            final(self).forum_users == old(self).forum_users,
            final(self).moderators == old(self).moderators,
            final(self).posts == old(self).posts,
            final(self).category_by_moderator == old(self).category_by_moderator,
            final(self).config == old(self).config,
            final(self).forum_sudo == old(self).forum_sudo,
            final(self).storage_version == old(self).storage_version,
    {
        if !(1 <= forum_user_id && forum_user_id <= self.forum_users.len() as u64) {
            return Err(Error::NotFound);
        }
        let acct = match origin {
            Origin::Root => {
                return Err(Error::Authorization);
            },
            Origin::Signed(a) => a,
        };
        if acct != self.forum_users[(forum_user_id - 1) as usize].role_account {
            return Err(Error::Authorization);
        }
        if !(1 <= category_id && category_id <= self.categories.len() as u64) {
            return Err(Error::NotFound);
        }
        let cidx = (category_id - 1) as usize;
        if self.categories[cidx].deleted || self.categories[cidx].archived {
            return Err(Error::InvalidState);
        }
        if !self.config.thread_title_constraint.check(title.len())
            || !self.config.post_text_constraint.check(text.len()) {
            return Err(Error::InvalidTextLength);
        }
        let deposit = compute_thread_deposit(&self.config, title.len(), text.len());
        if let Err(e) = ledger.reserve(acct, deposit) {
            return Err(e);
        }
        let id = self.threads.len() as u64 + 1;
        let ghost prior = *self;
        proof {
            lemma_count_where_le_len(self.threads@, thread_in_pred(category_id));
        }
        {
            let elem = &mut self.categories[cidx];
            elem.thread_count = elem.thread_count + 1;
        }
        self.threads.push(
            Thread { category_id, author: forum_user_id, title, text, moderation: None },
        );
        self.events.push(Event::ThreadCreated(id));
        proof {
            self.lemma_wf_after_create_thread(prior, category_id);
        }
        Ok(id)
    }

    /// Restores the invariant after a thread was appended and its category's
    /// thread counter incremented.
    proof fn lemma_wf_after_create_thread(self, prior: Forum, category_id: u64)
        requires
            prior.wf(),
            prior.threads@.len() + 1 < u64::MAX,
            prior.has_category(category_id),
            !prior.category_at(category_id).deleted,
            self.categories@ == prior.categories@.update(
                category_id - 1,
                prior.category_at(category_id).with_thread_count(
                    (prior.category_at(category_id).thread_count + 1) as u64,
                ),
            ),
            self.threads@.len() == prior.threads@.len() + 1,
            self.threads@ == prior.threads@.push(self.threads@.last()),
            self.threads@.last().category_id == category_id,
            1 <= self.threads@.last().author <= prior.forum_users@.len(),
            self.threads@.last().moderation is None,
            self.posts == prior.posts,
            self.forum_users == prior.forum_users,
            self.moderators == prior.moderators,
            self.category_by_moderator == prior.category_by_moderator,
        ensures
            self.wf(),
    {
        let cats0 = prior.categories@;
        let cats1 = self.categories@;
        let t = category_id - 1;
        let upd = prior.category_at(category_id).with_thread_count(
            (prior.category_at(category_id).thread_count + 1) as u64,
        );
        let new_thread = self.threads@.last();
        assert forall|i: int| 0 <= i < cats1.len() implies {
            let c = #[trigger] cats1[i];
            &&& (c.parent matches Some(p) ==> 1 <= p <= i)
            &&& (c.parent matches Some(p) ==> (c.deleted || !cats1[p - 1].deleted))
            &&& c.child_count == count_where(cats1, live_child_pred((i + 1) as u64))
            &&& c.thread_count == count_where(self.threads@, thread_in_pred((i + 1) as u64))
        } by {
            let pred = live_child_pred((i + 1) as u64);
            let tpred = thread_in_pred((i + 1) as u64);
            lemma_count_where_update(cats0, pred, t, upd);
            lemma_count_where_push(prior.threads@, tpred, new_thread);
            lemma_count_where_le_len(prior.threads@, tpred);
            assert(cats0[i].child_count == count_where(cats0, pred));
            assert(cats0[i].thread_count == count_where(prior.threads@, tpred));
        }
        assert(self.categories_wf());
        assert forall|i: int| 0 <= i < self.threads@.len() implies {
            let th = #[trigger] self.threads@[i];
            &&& 1 <= th.category_id <= self.categories@.len()
            &&& !self.categories@[th.category_id - 1].deleted
            &&& 1 <= th.author <= self.forum_users@.len()
            &&& (th.moderation matches Some(m) ==> 1 <= m.moderator_id <= self.moderators@.len())
        } by {
            let ci = self.threads@[i].category_id - 1;
            if i < prior.threads@.len() {
                assert(self.threads@[i] == prior.threads@[i]);
            }
            assert(cats1[ci].deleted == cats0[ci].deleted);
        }
        assert(self.threads_wf());
        assert(self.posts_wf());
        assert(self.assignments_wf());
    }

    /// What `create_post` demands before it writes: a registered author
    /// calling through its own account, an existing unmoderated thread in an
    /// unarchived category, text within bounds, and a covering free balance.
    pub open spec fn create_post_check(
        self,
        ledger: Ledger,
        origin: Origin,
        forum_user_id: u64,
        thread_id: u64,
        text: Seq<u8>,
    ) -> Result<(), Error> {
        if !self.has_forum_user(forum_user_id) {
            Err(Error::NotFound)
        } else {
            match origin {
                Origin::Root => Err(Error::Authorization),
                Origin::Signed(a) => {
                    if a != self.forum_user_at(forum_user_id).role_account {
                        Err(Error::Authorization)
                    } else if !self.has_thread(thread_id) {
                        Err(Error::NotFound)
                    } else if self.thread_at(thread_id).moderation is Some {
                        Err(Error::InvalidState)
                    } else if self.category_at(self.thread_at(thread_id).category_id).archived {
                        Err(Error::InvalidState)
                    } else if !length_ok(self.config.post_text_constraint, text.len()) {
                        Err(Error::InvalidTextLength)
                    } else if post_deposit(self.config, text.len()) > ledger.free_of(a) {
                        Err(Error::InsufficientBalance)
                    } else {
                        Ok(())
                    }
                },
            }
        }
    }

    /// Adds a post to an unmoderated thread, reserving the post deposit
    /// from the caller before the record is written.
    pub fn create_post(
        &mut self,
        ledger: &mut Ledger,
        origin: Origin,
        forum_user_id: u64,
        thread_id: u64,
        text: Vec<u8>,
    ) -> (r: Result<u64, Error>)
        requires
            old(self).wf(),
            old(ledger).wf(),
            old(self).posts@.len() + 1 < u64::MAX,
        ensures
            final(self).wf(),
            final(ledger).wf(),
            old(self).create_post_check(*old(ledger), origin, forum_user_id, thread_id, text@)
                matches Err(e) ==> (r == Err::<u64, Error>(e) && *final(self) == *old(self)
                && *final(ledger) == *old(ledger)),
            origin matches Origin::Signed(acct) ==> (old(self).create_post_check(
                *old(ledger),
                origin,
                forum_user_id,
                thread_id,
                text@,
            ) is Ok ==> ({
                let deposit = post_deposit(old(self).config, text@.len());
                &&& r == Ok::<u64, Error>((old(self).posts@.len() + 1) as u64)
                &&& final(self).posts@ == old(self).posts@.push(
                    Post { thread_id, author: forum_user_id, text, moderation: None },
                )
                &&& final(self).events@ == old(self).events@.push(
                    Event::PostCreated((old(self).posts@.len() + 1) as u64),
                )
                &&& final(ledger).free_of(acct) == old(ledger).free_of(acct) - deposit
                &&& final(ledger).reserved_of(acct) == old(ledger).reserved_of(acct) + deposit
                &&& (forall|a: u64|
                    a != acct ==> final(ledger).free_of(a) == old(ledger).free_of(a) && final(ledger).reserved_of(a) == old(ledger).reserved_of(a))
            })),
            final(self).forum_users == old(self).forum_users,
            final(self).moderators == old(self).moderators,
            final(self).categories == old(self).categories,
            final(self).threads == old(self).threads,
            final(self).category_by_moderator == old(self).category_by_moderator,
            final(self).config == old(self).config,
            final(self).forum_sudo == old(self).forum_sudo,
            final(self).storage_version == old(self).storage_version,
    {
        if !(1 <= forum_user_id && forum_user_id <= self.forum_users.len() as u64) {
            return Err(Error::NotFound);
        }
        let acct = match origin {
            Origin::Root => {
                return Err(Error::Authorization);
            },
            Origin::Signed(a) => a,
        };
        if acct != self.forum_users[(forum_user_id - 1) as usize].role_account {
            return Err(Error::Authorization);
        }
        if !(1 <= thread_id && thread_id <= self.threads.len() as u64) {
            return Err(Error::NotFound);
        }
        let tidx = (thread_id - 1) as usize;
        if self.threads[tidx].moderation.is_some() {
            return Err(Error::InvalidState);
        }
        let ncats = self.categories.len();
        proof {
            assert(1 <= self.threads@[tidx as int].category_id <= ncats);
        }
        let cidx = (self.threads[tidx].category_id - 1) as usize;
        if self.categories[cidx].archived {
            return Err(Error::InvalidState);
        }
        if !self.config.post_text_constraint.check(text.len()) {
            return Err(Error::InvalidTextLength);
        }
        let deposit = compute_post_deposit(&self.config, text.len());
        if let Err(e) = ledger.reserve(acct, deposit) {
            return Err(e);
        }
        let id = self.posts.len() as u64 + 1;
        self.posts.push(Post { thread_id, author: forum_user_id, text, moderation: None });
        self.events.push(Event::PostCreated(id));
        Ok(id)
    }

    /// May `origin` moderate content in `category_id` acting as
    /// `moderator_id`? The sudo always may; anyone else must be the
    /// moderator's own account and hold an active assignment there.
    pub open spec fn may_moderate(self, origin: Origin, moderator_id: u64, category_id: u64) -> bool {
        self.origin_is_forum_sudo(origin) || (origin matches Origin::Signed(a)
            && a == self.moderator_at(moderator_id).role_account && self.is_moderator_for(
            moderator_id,
            category_id,
        ))
    }

    /// What `moderate_thread` demands: an existing moderator and thread, an
    /// authorized caller, a not-yet-moderated target and a rationale within
    /// bounds.
    pub open spec fn moderate_thread_check(
        self,
        origin: Origin,
        moderator_id: u64,
        thread_id: u64,
        rationale: Seq<u8>,
    ) -> Result<(), Error> {
        if !self.has_moderator(moderator_id) {
            Err(Error::NotFound)
        } else if !self.has_thread(thread_id) {
            Err(Error::NotFound)
        } else if !self.may_moderate(origin, moderator_id, self.thread_at(thread_id).category_id) {
            Err(Error::Authorization)
        } else if self.thread_at(thread_id).moderation is Some {
            Err(Error::InvalidState)
        } else if !length_ok(self.config.moderation_rationale_constraint, rationale.len()) {
            Err(Error::InvalidTextLength)
        } else {
            Ok(())
        }
    }

    /// Attaches an immutable moderation record to a thread. One-way: an
    /// already-moderated thread rejects a second moderation. The author's
    /// deposit stays with the ledger's reserve.
    pub fn moderate_thread(
        &mut self,
        origin: Origin,
        moderator_id: u64,
        thread_id: u64,
        rationale: Vec<u8>,
    ) -> (r: Result<(), Error>)
        requires
            old(self).wf(),
        ensures
            final(self).wf(),
            old(self).moderate_thread_check(origin, moderator_id, thread_id, rationale@)
                matches Err(e) ==> (r == Err::<(), Error>(e) && *final(self) == *old(self)),
            old(self).moderate_thread_check(origin, moderator_id, thread_id, rationale@) is Ok
                ==> ({
                &&& r is Ok
                &&& final(self).threads@ == old(self).threads@.update(
                    thread_id - 1,
                    old(self).thread_at(thread_id).with_moderation(
                        ModerationRecord { moderator_id, rationale },
                    ),
                )
                &&& final(self).events@ == old(self).events@.push(
                    Event::ThreadModerated(thread_id),
                )
            }),
            final(self).forum_users == old(self).forum_users,
            final(self).moderators == old(self).moderators,
            final(self).categories == old(self).categories,
            final(self).posts == old(self).posts,
            final(self).category_by_moderator == old(self).category_by_moderator,
            final(self).config == old(self).config,
            final(self).forum_sudo == old(self).forum_sudo,
            final(self).storage_version == old(self).storage_version,
    {
        if !(1 <= moderator_id && moderator_id <= self.moderators.len() as u64) {
            return Err(Error::NotFound);
        }
        if !(1 <= thread_id && thread_id <= self.threads.len() as u64) {
            return Err(Error::NotFound);
        }
        let tidx = (thread_id - 1) as usize;
        let category_id = self.threads[tidx].category_id;
        if !self.check_may_moderate(&origin, moderator_id, category_id) {
            return Err(Error::Authorization);
        }
        if self.threads[tidx].moderation.is_some() {
            return Err(Error::InvalidState);
        }
        if !self.config.moderation_rationale_constraint.check(rationale.len()) {
            return Err(Error::InvalidTextLength);
        }
        let ghost prior = *self;
        {
            let elem = &mut self.threads[tidx];
            elem.moderation = Some(ModerationRecord { moderator_id, rationale });
        }
        self.events.push(Event::ThreadModerated(thread_id));
        proof {
            let threads0 = prior.threads@;
            let threads1 = self.threads@;
            assert forall|i: int| 0 <= i < self.categories@.len() implies {
                let c = #[trigger] self.categories@[i];
                &&& (c.parent matches Some(p) ==> 1 <= p <= i)
                &&& (c.parent matches Some(p) ==> (c.deleted || !self.categories@[p - 1].deleted))
                &&& c.child_count == count_where(self.categories@, live_child_pred((i + 1) as u64))
                &&& c.thread_count == count_where(threads1, thread_in_pred((i + 1) as u64))
            } by {
                let tpred = thread_in_pred((i + 1) as u64);
                lemma_count_where_update(threads0, tpred, thread_id - 1, threads1[thread_id - 1]);
                assert(prior.categories@[i].thread_count == count_where(threads0, tpred));
            }
            assert(self.categories_wf());
            assert(self.threads_wf());
            assert(self.posts_wf());
            assert(self.assignments_wf());
        }
        Ok(())
    }

    /// The executable authorization test behind the moderation calls.
    fn check_may_moderate(&self, origin: &Origin, moderator_id: u64, category_id: u64) -> (r: bool)
        requires
            self.wf(),
            self.has_moderator(moderator_id),
        ensures
            r == self.may_moderate(*origin, moderator_id, category_id),
    {
        let is_sudo = match origin {
            Origin::Signed(a) => match self.forum_sudo {
                Some(s) => *a == s,
                None => false,
            },
            Origin::Root => false,
        };
        if is_sudo {
            return true;
        }
        let nmods = self.moderators.len();
        proof {
            assert(1 <= moderator_id <= nmods);
        }
        match origin {
            Origin::Signed(a) => {
                if *a != self.moderators[(moderator_id - 1) as usize].role_account {
                    return false;
                }
                self.is_moderator_of_category(moderator_id, category_id)
            },
            Origin::Root => false,
        }
    }

    /// What `moderate_post` demands: an existing moderator and post, an
    /// authorized caller for the post's category, a not-yet-moderated target
    /// and a rationale within bounds.
    pub open spec fn moderate_post_check(
        self,
        origin: Origin,
        moderator_id: u64,
        post_id: u64,
        rationale: Seq<u8>,
    ) -> Result<(), Error> {
        if !self.has_moderator(moderator_id) {
            Err(Error::NotFound)
        } else if !self.has_post(post_id) {
            Err(Error::NotFound)
        } else if !self.may_moderate(
            origin,
            moderator_id,
            self.thread_at(self.post_at(post_id).thread_id).category_id,
        ) {
            Err(Error::Authorization)
        } else if self.post_at(post_id).moderation is Some {
            Err(Error::InvalidState)
        } else if !length_ok(self.config.moderation_rationale_constraint, rationale.len()) {
            Err(Error::InvalidTextLength)
        } else {
            Ok(())
        }
    }

    /// Attaches an immutable moderation record to a post; one-way, like
    /// thread moderation, and the deposit likewise stays reserved.
    pub fn moderate_post(
        &mut self,
        origin: Origin,
        moderator_id: u64,
        post_id: u64,
        rationale: Vec<u8>,
    ) -> (r: Result<(), Error>)
        requires
            old(self).wf(),
        ensures
            final(self).wf(),
            old(self).moderate_post_check(origin, moderator_id, post_id, rationale@) matches Err(e)
                ==> (r == Err::<(), Error>(e) && *final(self) == *old(self)),
            old(self).moderate_post_check(origin, moderator_id, post_id, rationale@) is Ok ==> ({
                &&& r is Ok
                &&& final(self).posts@ == old(self).posts@.update(
                    post_id - 1,
                    old(self).post_at(post_id).with_moderation(
                        ModerationRecord { moderator_id, rationale },
                    ),
                )
                &&& final(self).events@ == old(self).events@.push(Event::PostModerated(post_id))
            }),
            final(self).forum_users == old(self).forum_users,
            final(self).moderators == old(self).moderators,
            final(self).categories == old(self).categories,
            final(self).threads == old(self).threads,
            final(self).category_by_moderator == old(self).category_by_moderator,
            final(self).config == old(self).config,
            final(self).forum_sudo == old(self).forum_sudo,
            final(self).storage_version == old(self).storage_version,
    {
        if !(1 <= moderator_id && moderator_id <= self.moderators.len() as u64) {
            return Err(Error::NotFound);
        }
        if !(1 <= post_id && post_id <= self.posts.len() as u64) {
            return Err(Error::NotFound);
        }
        let pidx = (post_id - 1) as usize;
        let nthreads = self.threads.len();
        proof {
            assert(1 <= self.posts@[pidx as int].thread_id <= nthreads);
        }
        let thread_id = self.posts[pidx].thread_id;
        let category_id = self.threads[(thread_id - 1) as usize].category_id;
        if !self.check_may_moderate(&origin, moderator_id, category_id) {
            return Err(Error::Authorization);
        }
        if self.posts[pidx].moderation.is_some() {
            return Err(Error::InvalidState);
        }
        if !self.config.moderation_rationale_constraint.check(rationale.len()) {
            return Err(Error::InvalidTextLength);
        }
        {
            let elem = &mut self.posts[pidx];
            elem.moderation = Some(ModerationRecord { moderator_id, rationale });
        }
        self.events.push(Event::PostModerated(post_id));
        Ok(())
    }
}

} // verus!
