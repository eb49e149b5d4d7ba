//! Scenario tests for the forum's laws: empty-subtree deletion, terminal
//! deletion, one-way moderation, exact deposit accounting, read-back,
//! migration idempotence, and the authorization rules.

use forum::{
    Config, Error, Event, Forum, InputLengthConstraint, Ledger, Origin, Releases,
};

const SUDO: u64 = 33;
const USER_ACCT: u64 = 7;
const MOD_ACCT: u64 = 8;

fn config_with_deposits(per_thread: u64, per_post: u64, per_title_byte: u64, per_text_byte: u64) -> Config {
    Config {
        category_title_constraint: InputLengthConstraint { min: 10, max: 140 },
        category_description_constraint: InputLengthConstraint { min: 10, max: 140 },
        thread_title_constraint: InputLengthConstraint { min: 3, max: 43 },
        post_text_constraint: InputLengthConstraint { min: 1, max: 1001 },
        moderation_rationale_constraint: InputLengthConstraint { min: 10, max: 2000 },
        deposit_per_thread: per_thread,
        deposit_per_post: per_post,
        deposit_title_per_byte: per_title_byte,
        deposit_text_per_byte: per_text_byte,
    }
}

fn free_genesis() -> Forum {
    Forum::genesis(config_with_deposits(0, 0, 0, 0), Some(SUDO))
}

fn title() -> Vec<u8> {
    b"A category title".to_vec()
}

fn description() -> Vec<u8> {
    b"A category description".to_vec()
}

fn rationale() -> Vec<u8> {
    b"violates rules".to_vec()
}

#[test]
fn category_hierarchy_deletion_order() {
    let mut forum = free_genesis();
    let sudo = Origin::Signed(SUDO);
    let a = forum.create_category(sudo, None, title(), description()).unwrap();
    let b = forum
        .create_category(sudo, Some(a), b"A subcategory".to_vec(), description())
        .unwrap();
    assert_eq!(forum.category_by_id(a).unwrap().child_count, 1);
    assert_eq!(forum.category_by_id(b).unwrap().parent, Some(a));
    // A still holds a live subcategory: deleting it must fail.
    assert_eq!(forum.set_category_deleted(sudo, a), Err(Error::InvalidState));
    assert!(!forum.category_by_id(a).unwrap().deleted);
    // The leaf goes first, then the emptied parent.
    assert_eq!(forum.set_category_deleted(sudo, b), Ok(()));
    assert_eq!(forum.category_by_id(a).unwrap().child_count, 0);
    assert_eq!(forum.set_category_deleted(sudo, a), Ok(()));
}

#[test]
fn category_with_threads_cannot_be_deleted() {
    let mut forum = free_genesis();
    let mut ledger = Ledger::new();
    let sudo = Origin::Signed(SUDO);
    let user = forum.create_forum_user(USER_ACCT);
    let c = forum.create_category(sudo, None, title(), description()).unwrap();
    forum
        .create_thread(
            &mut ledger,
            Origin::Signed(USER_ACCT),
            user,
            c,
            b"thread".to_vec(),
            b"text".to_vec(),
        )
        .unwrap();
    assert_eq!(forum.category_by_id(c).unwrap().thread_count, 1);
    assert_eq!(forum.set_category_deleted(sudo, c), Err(Error::InvalidState));
}

#[test]
fn deleted_category_is_terminal() {
    let mut forum = free_genesis();
    let mut ledger = Ledger::new();
    let sudo = Origin::Signed(SUDO);
    let user = forum.create_forum_user(USER_ACCT);
    let moderator = forum.create_moderator(MOD_ACCT);
    let d = forum.create_category(sudo, None, title(), description()).unwrap();
    assert_eq!(forum.set_category_deleted(sudo, d), Ok(()));
    // No subcategory under it.
    assert_eq!(
        forum.create_category(sudo, Some(d), title(), description()),
        Err(Error::InvalidState)
    );
    // No thread in it.
    assert_eq!(
        forum.create_thread(
            &mut ledger,
            Origin::Signed(USER_ACCT),
            user,
            d,
            b"thread".to_vec(),
            b"text".to_vec(),
        ),
        Err(Error::InvalidState)
    );
    // No moderator assignment on it.
    assert_eq!(
        forum.assign_moderator_to_category(sudo, moderator, d, true),
        Err(Error::InvalidState)
    );
    // Archiving and re-deleting are refused too: the state is terminal.
    assert_eq!(forum.set_category_archived(sudo, d, true), Err(Error::InvalidState));
    assert_eq!(forum.set_category_deleted(sudo, d), Err(Error::InvalidState));
}

#[test]
fn moderation_is_idempotent_rejecting() {
    let mut forum = free_genesis();
    let mut ledger = Ledger::new();
    let sudo = Origin::Signed(SUDO);
    let user = forum.create_forum_user(USER_ACCT);
    let moderator = forum.create_moderator(MOD_ACCT);
    let c = forum.create_category(sudo, None, title(), description()).unwrap();
    forum.assign_moderator_to_category(sudo, moderator, c, true).unwrap();
    let t = forum
        .create_thread(
            &mut ledger,
            Origin::Signed(USER_ACCT),
            user,
            c,
            b"thread".to_vec(),
            b"text".to_vec(),
        )
        .unwrap();
    assert_eq!(
        forum.moderate_thread(Origin::Signed(MOD_ACCT), moderator, t, rationale()),
        Ok(())
    );
    let first = forum.thread_by_id(t).unwrap().moderation.clone().unwrap();
    // The second attempt fails and the attached record is untouched.
    assert_eq!(
        forum.moderate_thread(Origin::Signed(MOD_ACCT), moderator, t, b"another rationale".to_vec()),
        Err(Error::InvalidState)
    );
    let second = forum.thread_by_id(t).unwrap().moderation.clone().unwrap();
    assert_eq!(first.moderator_id, second.moderator_id);
    assert_eq!(first.rationale, second.rationale);
}

#[test]
fn post_moderation_is_idempotent_rejecting() {
    let mut forum = free_genesis();
    let mut ledger = Ledger::new();
    let sudo = Origin::Signed(SUDO);
    let user = forum.create_forum_user(USER_ACCT);
    let moderator = forum.create_moderator(MOD_ACCT);
    let c = forum.create_category(sudo, None, title(), description()).unwrap();
    forum.assign_moderator_to_category(sudo, moderator, c, true).unwrap();
    let t = forum
        .create_thread(
            &mut ledger,
            Origin::Signed(USER_ACCT),
            user,
            c,
            b"thread".to_vec(),
            b"text".to_vec(),
        )
        .unwrap();
    let p = forum
        .create_post(&mut ledger, Origin::Signed(USER_ACCT), user, t, b"reply".to_vec())
        .unwrap();
    assert_eq!(
        forum.moderate_post(Origin::Signed(MOD_ACCT), moderator, p, rationale()),
        Ok(())
    );
    let first = forum.post_by_id(p).unwrap().moderation.clone().unwrap();
    assert_eq!(
        forum.moderate_post(Origin::Signed(MOD_ACCT), moderator, p, b"another rationale".to_vec()),
        Err(Error::InvalidState)
    );
    let second = forum.post_by_id(p).unwrap().moderation.clone().unwrap();
    assert_eq!(first.moderator_id, second.moderator_id);
    assert_eq!(first.rationale, second.rationale);
}

#[test]
fn thread_deposit_is_reserved_exactly() {
    // 10 flat, 2 per title byte, 3 per text byte.
    let mut forum = Forum::genesis(config_with_deposits(10, 5, 2, 3), Some(SUDO));
    let mut ledger = Ledger::new();
    assert!(ledger.endow(USER_ACCT, 1000));
    let sudo = Origin::Signed(SUDO);
    let user = forum.create_forum_user(USER_ACCT);
    let c = forum.create_category(sudo, None, title(), description()).unwrap();
    let thread_title = b"abcde".to_vec(); // 5 bytes
    let thread_text = b"0123456789".to_vec(); // 10 bytes
    forum
        .create_thread(&mut ledger, Origin::Signed(USER_ACCT), user, c, thread_title, thread_text)
        .unwrap();
    // 10 + 2 * 5 + 3 * 10 = 50
    assert_eq!(ledger.reserved_balance(USER_ACCT), 50);
    assert_eq!(ledger.free_balance(USER_ACCT), 950);
    // A post reserves its own flat part plus the per-byte part.
    let t = forum.next_thread_id() - 1;
    forum
        .create_post(&mut ledger, Origin::Signed(USER_ACCT), user, t, b"abc".to_vec())
        .unwrap();
    // 5 + 3 * 3 = 14 more
    assert_eq!(ledger.reserved_balance(USER_ACCT), 64);
    assert_eq!(ledger.free_balance(USER_ACCT), 936);
}

#[test]
fn rejected_reservation_leaves_no_thread() {
    let mut forum = Forum::genesis(config_with_deposits(100, 0, 0, 0), Some(SUDO));
    let mut ledger = Ledger::new();
    assert!(ledger.endow(USER_ACCT, 99));
    let sudo = Origin::Signed(SUDO);
    let user = forum.create_forum_user(USER_ACCT);
    let c = forum.create_category(sudo, None, title(), description()).unwrap();
    let next = forum.next_thread_id();
    assert_eq!(
        forum.create_thread(
            &mut ledger,
            Origin::Signed(USER_ACCT),
            user,
            c,
            b"abc".to_vec(),
            b"x".to_vec(),
        ),
        Err(Error::InsufficientBalance)
    );
    // No record, no counter movement, no balance movement.
    assert_eq!(forum.next_thread_id(), next);
    assert!(forum.thread_by_id(next).is_none());
    assert_eq!(forum.category_by_id(c).unwrap().thread_count, 0);
    assert_eq!(ledger.free_balance(USER_ACCT), 99);
    assert_eq!(ledger.reserved_balance(USER_ACCT), 0);
}

#[test]
fn moderation_forfeits_the_deposit() {
    let mut forum = Forum::genesis(config_with_deposits(10, 0, 0, 0), Some(SUDO));
    let mut ledger = Ledger::new();
    assert!(ledger.endow(USER_ACCT, 100));
    let sudo = Origin::Signed(SUDO);
    let user = forum.create_forum_user(USER_ACCT);
    let moderator = forum.create_moderator(MOD_ACCT);
    let c = forum.create_category(sudo, None, title(), description()).unwrap();
    forum.assign_moderator_to_category(sudo, moderator, c, true).unwrap();
    let t = forum
        .create_thread(
            &mut ledger,
            Origin::Signed(USER_ACCT),
            user,
            c,
            b"abc".to_vec(),
            b"x".to_vec(),
        )
        .unwrap();
    assert_eq!(ledger.reserved_balance(USER_ACCT), 10);
    forum
        .moderate_thread(Origin::Signed(MOD_ACCT), moderator, t, rationale())
        .unwrap();
    // The deposit stays with the reserve: no refund on moderation.
    assert_eq!(ledger.reserved_balance(USER_ACCT), 10);
    assert_eq!(ledger.free_balance(USER_ACCT), 90);
}

#[test]
fn category_round_trip() {
    let mut forum = free_genesis();
    let sudo = Origin::Signed(SUDO);
    let id = forum
        .create_category(sudo, None, title(), description())
        .unwrap();
    let c = forum.category_by_id(id).unwrap();
    assert_eq!(c.parent, None);
    assert_eq!(c.title, title());
    assert_eq!(c.description, description());
    assert!(!c.archived);
    assert!(!c.deleted);
    let child = forum
        .create_category(sudo, Some(id), b"A subcategory".to_vec(), description())
        .unwrap();
    let cc = forum.category_by_id(child).unwrap();
    assert_eq!(cc.parent, Some(id));
    assert_eq!(cc.title, b"A subcategory".to_vec());
}

#[test]
fn migration_is_idempotent() {
    let mut forum = free_genesis();
    let sudo = Origin::Signed(SUDO);
    forum.create_category(sudo, None, title(), description()).unwrap();
    forum.create_forum_user(USER_ACCT);
    // A store still on the previous schema generation.
    forum.storage_version = Releases::V1_0_0;
    forum::migration::on_runtime_upgrade(&mut forum);
    assert_eq!(forum.storage_version(), Releases::V2_0_0);
    let after_first = forum.clone();
    forum::migration::on_runtime_upgrade(&mut forum);
    assert_eq!(forum, after_first);
}

#[test]
fn moderation_flow_blocks_new_posts() {
    let mut forum = free_genesis();
    let mut ledger = Ledger::new();
    let sudo = Origin::Signed(SUDO);
    let u = forum.create_forum_user(USER_ACCT);
    let m = forum.create_moderator(MOD_ACCT);
    let c = forum.create_category(sudo, None, title(), description()).unwrap();
    forum.assign_moderator_to_category(sudo, m, c, true).unwrap();
    let t = forum
        .create_thread(
            &mut ledger,
            Origin::Signed(USER_ACCT),
            u,
            c,
            b"thread".to_vec(),
            b"text".to_vec(),
        )
        .unwrap();
    forum
        .moderate_thread(Origin::Signed(MOD_ACCT), m, t, rationale())
        .unwrap();
    assert_eq!(
        forum.create_post(&mut ledger, Origin::Signed(USER_ACCT), u, t, b"late".to_vec()),
        Err(Error::InvalidState)
    );
}

#[test]
fn unauthorized_moderation_is_refused_but_sudo_passes() {
    let mut forum = free_genesis();
    let mut ledger = Ledger::new();
    let sudo = Origin::Signed(SUDO);
    let u = forum.create_forum_user(USER_ACCT);
    let m = forum.create_moderator(MOD_ACCT);
    let c = forum.create_category(sudo, None, title(), description()).unwrap();
    let t = forum
        .create_thread(
            &mut ledger,
            Origin::Signed(USER_ACCT),
            u,
            c,
            b"thread".to_vec(),
            b"text".to_vec(),
        )
        .unwrap();
    // M holds no assignment on C.
    assert_eq!(
        forum.moderate_thread(Origin::Signed(MOD_ACCT), m, t, rationale()),
        Err(Error::Authorization)
    );
    assert!(forum.thread_by_id(t).unwrap().moderation.is_none());
    // The sudo may moderate regardless of assignments.
    assert_eq!(forum.moderate_thread(sudo, m, t, rationale()), Ok(()));
}

#[test]
fn revoked_assignment_loses_rights() {
    let mut forum = free_genesis();
    let mut ledger = Ledger::new();
    let sudo = Origin::Signed(SUDO);
    let u = forum.create_forum_user(USER_ACCT);
    let m = forum.create_moderator(MOD_ACCT);
    let c = forum.create_category(sudo, None, title(), description()).unwrap();
    forum.assign_moderator_to_category(sudo, m, c, true).unwrap();
    assert!(forum.is_moderator_of_category(m, c));
    forum.assign_moderator_to_category(sudo, m, c, false).unwrap();
    assert!(!forum.is_moderator_of_category(m, c));
    let t = forum
        .create_thread(
            &mut ledger,
            Origin::Signed(USER_ACCT),
            u,
            c,
            b"thread".to_vec(),
            b"text".to_vec(),
        )
        .unwrap();
    assert_eq!(
        forum.moderate_thread(Origin::Signed(MOD_ACCT), m, t, rationale()),
        Err(Error::Authorization)
    );
}

#[test]
fn archived_category_blocks_new_content_but_not_moderation() {
    let mut forum = free_genesis();
    let mut ledger = Ledger::new();
    let sudo = Origin::Signed(SUDO);
    let u = forum.create_forum_user(USER_ACCT);
    let m = forum.create_moderator(MOD_ACCT);
    let c = forum.create_category(sudo, None, title(), description()).unwrap();
    forum.assign_moderator_to_category(sudo, m, c, true).unwrap();
    let t = forum
        .create_thread(
            &mut ledger,
            Origin::Signed(USER_ACCT),
            u,
            c,
            b"thread".to_vec(),
            b"text".to_vec(),
        )
        .unwrap();
    forum.set_category_archived(sudo, c, true).unwrap();
    assert_eq!(
        forum.create_thread(
            &mut ledger,
            Origin::Signed(USER_ACCT),
            u,
            c,
            b"another".to_vec(),
            b"text".to_vec(),
        ),
        Err(Error::InvalidState)
    );
    assert_eq!(
        forum.create_post(&mut ledger, Origin::Signed(USER_ACCT), u, t, b"reply".to_vec()),
        Err(Error::InvalidState)
    );
    // Moderation of existing content still works while archived.
    assert_eq!(
        forum.moderate_thread(Origin::Signed(MOD_ACCT), m, t, rationale()),
        Ok(())
    );
    // Archiving is reversible.
    forum.set_category_archived(sudo, c, false).unwrap();
    assert!(forum
        .create_thread(
            &mut ledger,
            Origin::Signed(USER_ACCT),
            u,
            c,
            b"another".to_vec(),
            b"text".to_vec(),
        )
        .is_ok());
}

#[test]
fn sudo_gate_errors() {
    let mut forum = free_genesis();
    // A signed non-sudo caller is refused as Authorization.
    assert_eq!(
        forum.create_category(Origin::Signed(5), None, title(), description()),
        Err(Error::Authorization)
    );
    // With no sudo configured the error names the missing capability.
    let mut bare = Forum::genesis(config_with_deposits(0, 0, 0, 0), None);
    assert_eq!(
        bare.create_category(Origin::Signed(5), None, title(), description()),
        Err(Error::ForumSudoNotSet)
    );
    assert_eq!(
        bare.set_forum_sudo(Origin::Signed(5), Some(5)),
        Err(Error::ForumSudoNotSet)
    );
    // The root authority bootstraps the first sudo.
    assert_eq!(bare.set_forum_sudo(Origin::Root, Some(5)), Ok(()));
    assert!(bare.is_sudo(5));
    // Now a signed sudo can hand the slot over, and the old one loses it.
    assert_eq!(bare.set_forum_sudo(Origin::Signed(5), Some(6)), Ok(()));
    assert_eq!(
        bare.set_forum_sudo(Origin::Signed(5), Some(5)),
        Err(Error::Authorization)
    );
}

#[test]
fn missing_ids_are_not_found() {
    let mut forum = free_genesis();
    let mut ledger = Ledger::new();
    let sudo = Origin::Signed(SUDO);
    let u = forum.create_forum_user(USER_ACCT);
    assert_eq!(
        forum.create_category(sudo, Some(99), title(), description()),
        Err(Error::NotFound)
    );
    assert_eq!(
        forum.create_thread(
            &mut ledger,
            Origin::Signed(USER_ACCT),
            u,
            99,
            b"abc".to_vec(),
            b"x".to_vec(),
        ),
        Err(Error::NotFound)
    );
    assert_eq!(
        forum.create_post(&mut ledger, Origin::Signed(USER_ACCT), u, 99, b"x".to_vec()),
        Err(Error::NotFound)
    );
    assert_eq!(
        forum.create_thread(
            &mut ledger,
            Origin::Signed(USER_ACCT),
            99,
            1,
            b"abc".to_vec(),
            b"x".to_vec(),
        ),
        Err(Error::NotFound)
    );
    assert_eq!(
        forum.moderate_thread(sudo, 99, 1, rationale()),
        Err(Error::NotFound)
    );
    assert_eq!(
        forum.assign_moderator_to_category(sudo, 99, 1, true),
        Err(Error::NotFound)
    );
}

#[test]
fn text_length_bounds_are_enforced() {
    let mut forum = free_genesis();
    let mut ledger = Ledger::new();
    let sudo = Origin::Signed(SUDO);
    let u = forum.create_forum_user(USER_ACCT);
    // Category title under its 10-byte minimum.
    assert_eq!(
        forum.create_category(sudo, None, b"short".to_vec(), description()),
        Err(Error::InvalidTextLength)
    );
    let c = forum.create_category(sudo, None, title(), description()).unwrap();
    // Thread title under its 3-byte minimum.
    assert_eq!(
        forum.create_thread(&mut ledger, Origin::Signed(USER_ACCT), u, c, b"ab".to_vec(), b"x".to_vec()),
        Err(Error::InvalidTextLength)
    );
    let t = forum
        .create_thread(&mut ledger, Origin::Signed(USER_ACCT), u, c, b"abc".to_vec(), b"x".to_vec())
        .unwrap();
    // Post text under its 1-byte minimum.
    assert_eq!(
        forum.create_post(&mut ledger, Origin::Signed(USER_ACCT), u, t, Vec::new()),
        Err(Error::InvalidTextLength)
    );
    // Rationale under its 10-byte minimum.
    let m = forum.create_moderator(MOD_ACCT);
    forum.assign_moderator_to_category(sudo, m, c, true).unwrap();
    assert_eq!(
        forum.moderate_thread(Origin::Signed(MOD_ACCT), m, t, b"short".to_vec()),
        Err(Error::InvalidTextLength)
    );
}

#[test]
fn author_must_call_through_role_account() {
    let mut forum = free_genesis();
    let mut ledger = Ledger::new();
    let sudo = Origin::Signed(SUDO);
    let u = forum.create_forum_user(USER_ACCT);
    let c = forum.create_category(sudo, None, title(), description()).unwrap();
    // A different signer than the user's role account is refused.
    assert_eq!(
        forum.create_thread(&mut ledger, Origin::Signed(5), u, c, b"abc".to_vec(), b"x".to_vec()),
        Err(Error::Authorization)
    );
    // So is the root authority: it carries no authoring rights.
    assert_eq!(
        forum.create_thread(&mut ledger, Origin::Root, u, c, b"abc".to_vec(), b"x".to_vec()),
        Err(Error::Authorization)
    );
}

#[test]
fn deposit_saturates_at_the_representable_maximum() {
    assert_eq!(forum::types::sat_add(u64::MAX, 5), u64::MAX);
    assert_eq!(forum::types::sat_add(3, 4), 7);
    assert_eq!(forum::types::sat_mul(u64::MAX / 2, 3), u64::MAX);
    assert_eq!(forum::types::sat_mul(6, 7), 42);
    let cfg = config_with_deposits(5, 0, u64::MAX, 1);
    assert_eq!(forum::types::compute_thread_deposit(&cfg, 2, 3), u64::MAX);
    let plain = config_with_deposits(10, 5, 2, 3);
    assert_eq!(forum::types::compute_thread_deposit(&plain, 5, 10), 50);
    assert_eq!(forum::types::compute_post_deposit(&plain, 3), 14);
}

#[test]
fn timestamps_carry_their_inputs() {
    let stamp = forum::types::current_block_and_time(11, 220);
    assert_eq!(stamp.block, 11);
    assert_eq!(stamp.time, 220);
    assert_eq!(Releases::default(), Releases::V1_0_0);
}

#[test]
fn read_predicates_answer_registration() {
    let mut forum = free_genesis();
    let sudo = Origin::Signed(SUDO);
    assert!(!forum.is_forum_user(1));
    let u = forum.create_forum_user(USER_ACCT);
    assert!(forum.is_forum_user(u));
    assert!(forum.is_sudo(SUDO));
    assert!(!forum.is_sudo(USER_ACCT));
    let m = forum.create_moderator(MOD_ACCT);
    let c = forum.create_category(sudo, None, title(), description()).unwrap();
    assert!(!forum.is_moderator_of_category(m, c));
    forum.assign_moderator_to_category(sudo, m, c, true).unwrap();
    assert!(forum.is_moderator_of_category(m, c));
}
