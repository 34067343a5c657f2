use starboard::starboard::{Database, StorageError};
use starboard::starboard_manager::{
    handle_reaction_add, handle_reaction_remove, handle_reaction_remove_all,
    update_starboard_message, ClearOutcome, MirrorDirective, VoteAddOutcome, VoteRemoveOutcome,
};
use starboard::starboard_message::{StarboardConfig, StarredMessage};

fn config(guild_id: u64, threshold: u64, self_star_allowed: bool) -> StarboardConfig {
    StarboardConfig {
        guild_id,
        starboard_channel_id: Some(500),
        threshold,
        star_emoji: "\u{2B50}".to_string(),
        self_star_allowed,
        enabled: true,
    }
}

fn record_for(message_id: u64, stars: u64) -> StarredMessage {
    StarredMessage {
        id: 0,
        original_message_id: message_id,
        original_channel_id: 20,
        starboard_message_id: Some(900),
        starboard_channel_id: Some(500),
        stars,
        created_at: None,
    }
}

const STAR: &str = "\u{2B50}";

#[test]
fn vote_without_config_is_ignored() {
    let mut db = Database::new();
    let out = handle_reaction_add(&mut db, Some(1), 10, 7, 8, STAR);
    assert_eq!(out, VoteAddOutcome::Ignored);
    assert_eq!(db.count_star_reactions(10), 0);
}

#[test]
fn vote_outside_guild_is_ignored() {
    let mut db = Database::new();
    db.set_starboard_config(config(1, 2, true));
    let out = handle_reaction_add(&mut db, None, 10, 7, 8, STAR);
    assert_eq!(out, VoteAddOutcome::Ignored);
}

#[test]
fn vote_with_disabled_starboard_is_ignored() {
    let mut db = Database::new();
    let mut c = config(1, 2, true);
    c.enabled = false;
    db.set_starboard_config(c);
    let out = handle_reaction_add(&mut db, Some(1), 10, 7, 8, STAR);
    assert_eq!(out, VoteAddOutcome::Ignored);
    assert_eq!(db.count_star_reactions(10), 0);
}

#[test]
fn vote_with_wrong_emoji_is_ignored() {
    let mut db = Database::new();
    db.set_starboard_config(config(1, 2, true));
    let out = handle_reaction_add(&mut db, Some(1), 10, 7, 8, "\u{1F525}");
    assert_eq!(out, VoteAddOutcome::Ignored);
    assert_eq!(db.count_star_reactions(10), 0);
}

#[test]
fn self_vote_is_rejected_when_disallowed() {
    let mut db = Database::new();
    db.set_starboard_config(config(1, 3, false));
    let out = handle_reaction_add(&mut db, Some(1), 10, 7, 7, STAR);
    assert_eq!(out, VoteAddOutcome::SelfVoteRejected);
    assert_eq!(db.count_star_reactions(10), 0);
}

#[test]
fn self_vote_counts_when_allowed() {
    let mut db = Database::new();
    db.set_starboard_config(config(1, 3, true));
    let out = handle_reaction_add(&mut db, Some(1), 10, 7, 7, STAR);
    assert_eq!(out, VoteAddOutcome::Recorded { count: 1 });
    assert!(db.has_user_starred(10, 7));
}

#[test]
fn duplicate_votes_are_idempotent() {
    let mut db = Database::new();
    db.set_starboard_config(config(1, 5, true));
    for _ in 0..3 {
        let out = handle_reaction_add(&mut db, Some(1), 10, 7, 8, STAR);
        assert_eq!(out, VoteAddOutcome::Recorded { count: 1 });
    }
    assert_eq!(db.count_star_reactions(10), 1);
}

#[test]
fn count_reflects_distinct_last_actions() {
    let mut db = Database::new();
    db.add_star_reaction(10, 1);
    db.add_star_reaction(10, 2);
    db.remove_star_reaction(10, 1);
    db.add_star_reaction(10, 3);
    db.add_star_reaction(10, 1);
    db.remove_star_reaction(10, 2);
    // last actions: 1 added, 2 removed, 3 added
    assert_eq!(db.count_star_reactions(10), 2);
    assert!(db.has_user_starred(10, 1));
    assert!(!db.has_user_starred(10, 2));
    assert!(db.has_user_starred(10, 3));
}

#[test]
fn removing_an_absent_vote_changes_nothing() {
    let mut db = Database::new();
    db.add_star_reaction(10, 1);
    db.remove_star_reaction(10, 2);
    db.remove_star_reaction(11, 1);
    assert_eq!(db.count_star_reactions(10), 1);
    assert_eq!(db.count_star_reactions(11), 0);
}

#[test]
fn threshold_crossing_creates_exactly_one_mirror() {
    // Two racing vote events, serialized by the reconciliation lock.
    let mut db = Database::new();
    db.set_starboard_config(config(1, 2, true));
    let a = handle_reaction_add(&mut db, Some(1), 10, 7, 8, STAR);
    assert_eq!(a, VoteAddOutcome::Recorded { count: 1 });
    let b = handle_reaction_add(&mut db, Some(1), 10, 7, 9, STAR);
    assert_eq!(b, VoteAddOutcome::ThresholdCandidate { count: 2 });

    // Both tasks take the lock in turn; only the first creates.
    let first = update_starboard_message(&mut db, 1, 10);
    assert_eq!(
        first,
        MirrorDirective::CreateMirror { mirror_channel_id: 500, star_count: 2 }
    );
    assert!(db.add_starred_message(record_for(10, 2)).is_ok());

    let second = update_starboard_message(&mut db, 1, 10);
    assert_eq!(
        second,
        MirrorDirective::EditMirror {
            mirror_channel_id: 500,
            mirror_message_id: 900,
            star_count: 2
        }
    );

    // A duplicate insertion is refused outright.
    assert_eq!(
        db.add_starred_message(record_for(10, 2)),
        Err(StorageError::DuplicateRecord)
    );
}

#[test]
fn no_mirror_channel_means_no_action() {
    let mut db = Database::new();
    let mut c = config(1, 1, true);
    c.starboard_channel_id = None;
    db.set_starboard_config(c);
    let out = handle_reaction_add(&mut db, Some(1), 10, 7, 8, STAR);
    assert_eq!(out, VoteAddOutcome::ThresholdCandidate { count: 1 });
    let d = update_starboard_message(&mut db, 1, 10);
    assert_eq!(d, MirrorDirective::NoAction);
    assert!(db.get_starred_message(10).is_none());
}

#[test]
fn dropping_below_threshold_retracts_the_mirror() {
    let mut db = Database::new();
    db.set_starboard_config(config(1, 2, true));
    handle_reaction_add(&mut db, Some(1), 10, 7, 8, STAR);
    handle_reaction_add(&mut db, Some(1), 10, 7, 9, STAR);
    update_starboard_message(&mut db, 1, 10);
    db.add_starred_message(record_for(10, 2)).unwrap();

    let out = handle_reaction_remove(&mut db, Some(1), 10, 9, STAR);
    assert_eq!(
        out,
        VoteRemoveOutcome::RetractMirror {
            count: 1,
            mirror_channel_id: Some(500),
            mirror_message_id: Some(900),
        }
    );
    // The shell deletes the remote message, then removes the record.
    db.delete_starred_message(10);
    assert!(db.get_starred_message(10).is_none());
}

#[test]
fn recrossing_creates_a_fresh_record() {
    let mut db = Database::new();
    db.set_starboard_config(config(1, 2, true));
    handle_reaction_add(&mut db, Some(1), 10, 7, 8, STAR);
    handle_reaction_add(&mut db, Some(1), 10, 7, 9, STAR);
    update_starboard_message(&mut db, 1, 10);
    db.add_starred_message(record_for(10, 2)).unwrap();
    let first_id = db.get_starred_message(10).unwrap().id;

    handle_reaction_remove(&mut db, Some(1), 10, 9, STAR);
    db.delete_starred_message(10);

    let out = handle_reaction_add(&mut db, Some(1), 10, 7, 11, STAR);
    assert_eq!(out, VoteAddOutcome::ThresholdCandidate { count: 2 });
    let d = update_starboard_message(&mut db, 1, 10);
    assert_eq!(
        d,
        MirrorDirective::CreateMirror { mirror_channel_id: 500, star_count: 2 }
    );
    db.add_starred_message(record_for(10, 2)).unwrap();
    let second_id = db.get_starred_message(10).unwrap().id;
    assert_ne!(first_id, second_id);
}

#[test]
fn staying_at_threshold_edits_the_mirror() {
    let mut db = Database::new();
    db.set_starboard_config(config(1, 2, true));
    for voter in [8, 9, 11] {
        handle_reaction_add(&mut db, Some(1), 10, 7, voter, STAR);
    }
    update_starboard_message(&mut db, 1, 10);
    db.add_starred_message(record_for(10, 3)).unwrap();

    let out = handle_reaction_remove(&mut db, Some(1), 10, 11, STAR);
    assert_eq!(
        out,
        VoteRemoveOutcome::EditMirror {
            count: 2,
            mirror_channel_id: 500,
            mirror_message_id: 900,
        }
    );
    assert_eq!(db.get_starred_message(10).unwrap().stars, 2);
}

#[test]
fn remove_guards_mirror_add_guards() {
    let mut db = Database::new();
    db.set_starboard_config(config(1, 2, true));
    handle_reaction_add(&mut db, Some(1), 10, 7, 8, STAR);
    assert_eq!(
        handle_reaction_remove(&mut db, Some(1), 10, 8, "\u{1F525}"),
        VoteRemoveOutcome::Ignored
    );
    assert_eq!(
        handle_reaction_remove(&mut db, None, 10, 8, STAR),
        VoteRemoveOutcome::Ignored
    );
    assert_eq!(db.count_star_reactions(10), 1);
}

#[test]
fn remove_without_mirror_only_drops_the_vote() {
    let mut db = Database::new();
    db.set_starboard_config(config(1, 5, true));
    handle_reaction_add(&mut db, Some(1), 10, 7, 8, STAR);
    let out = handle_reaction_remove(&mut db, Some(1), 10, 8, STAR);
    assert_eq!(out, VoteRemoveOutcome::NoMirror { count: 0 });
}

#[test]
fn clearing_votes_retracts_mirror_and_resets_count() {
    let mut db = Database::new();
    db.set_starboard_config(config(1, 2, true));
    handle_reaction_add(&mut db, Some(1), 10, 7, 8, STAR);
    handle_reaction_add(&mut db, Some(1), 10, 7, 9, STAR);
    update_starboard_message(&mut db, 1, 10);
    db.add_starred_message(record_for(10, 2)).unwrap();

    let out = handle_reaction_remove_all(&mut db, 10);
    assert_eq!(
        out,
        ClearOutcome::RetractMirror {
            mirror_channel_id: Some(500),
            mirror_message_id: Some(900),
        }
    );
    db.delete_starred_message(10);

    // A single new vote does not recreate the mirror: the count starts
    // again from zero.
    let out = handle_reaction_add(&mut db, Some(1), 10, 7, 8, STAR);
    assert_eq!(out, VoteAddOutcome::Recorded { count: 1 });
    assert!(db.get_starred_message(10).is_none());
    let out = handle_reaction_add(&mut db, Some(1), 10, 7, 9, STAR);
    assert_eq!(out, VoteAddOutcome::ThresholdCandidate { count: 2 });
}

#[test]
fn clearing_votes_without_mirror() {
    let mut db = Database::new();
    db.add_star_reaction(10, 1);
    let out = handle_reaction_remove_all(&mut db, 10);
    assert_eq!(out, ClearOutcome::NoMirror);
    assert_eq!(db.count_star_reactions(10), 0);
}

#[test]
fn config_round_trip() {
    let mut db = Database::new();
    db.set_starboard_config(config(1, 3, false));
    let c = db.get_starboard_config(1).unwrap();
    assert_eq!(c.guild_id, 1);
    assert_eq!(c.threshold, 3);
    assert_eq!(c.starboard_channel_id, Some(500));
    assert_eq!(c.star_emoji, "\u{2B50}");
    assert!(!c.self_star_allowed);
    assert!(c.enabled);
    assert!(db.get_starboard_config(2).is_none());
}

#[test]
fn update_starred_message_changes_stars_and_mirror_id_only() {
    let mut db = Database::new();
    db.add_starred_message(record_for(10, 2)).unwrap();
    let mut changed = record_for(10, 7);
    changed.starboard_message_id = Some(901);
    changed.original_channel_id = 999; // must be ignored by the update
    db.update_starred_message(changed);
    let stored = db.get_starred_message(10).unwrap();
    assert_eq!(stored.stars, 7);
    assert_eq!(stored.starboard_message_id, Some(901));
    assert_eq!(stored.original_channel_id, 20);
}

#[test]
fn update_starred_message_without_record_is_a_noop() {
    let mut db = Database::new();
    db.update_starred_message(record_for(10, 7));
    assert!(db.get_starred_message(10).is_none());
}

#[test]
fn inserted_record_takes_the_next_id() {
    let mut db = Database::new();
    db.add_starred_message(record_for(10, 2)).unwrap();
    db.add_starred_message(record_for(11, 3)).unwrap();
    assert_eq!(db.get_starred_message(10).unwrap().id, 0);
    assert_eq!(db.get_starred_message(11).unwrap().id, 1);
}
