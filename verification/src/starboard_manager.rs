use vstd::prelude::*;
use crate::starboard::{
    Database, configs_unchanged, mirrors_unchanged, mirrors_unchanged_except, votes_unchanged,
    votes_unchanged_except,
};
use crate::starboard_message::{StarboardConfig, StarredMessage};
use crate::text::str_eq;

verus! {

// ------------------------------------------------------------------
// outcomes handed to the shell
// ------------------------------------------------------------------

/// What the reconciler decided about one vote-added event.
#[derive(Debug, Clone, Copy, PartialEq, Eq)]
pub enum VoteAddOutcome {
    /// The guards turned the event away: no guild, no configuration,
    /// starboard disabled, or the wrong emoji. Nothing changed.
    Ignored,
    /// A disallowed self-vote: nothing was recorded, and the shell
    /// must retract the originating reaction.
    SelfVoteRejected,
    /// The vote was recorded and the count stays below the threshold.
    Recorded { count: u64 },
    /// The vote was recorded and the count meets the threshold: the
    /// shell must take the reconciliation lock and run
    /// `update_starboard_message`.
    ThresholdCandidate { count: u64 },
}

/// What the locked reconciliation pass asks the shell to do.
#[derive(Debug, Clone, Copy, PartialEq, Eq)]
pub enum MirrorDirective {
    /// Nothing to do: the count fell back below the threshold, no
    /// mirror channel is configured, or the record lacks a mirror
    /// message to edit.
    NoAction,
    /// Send a freshly rendered mirror message to the channel, then
    /// store the record through `add_starred_message`.
    CreateMirror { mirror_channel_id: u64, star_count: u64 },
    /// Re-render the footer of the existing mirror message; the
    /// record's count is already updated.
    EditMirror { mirror_channel_id: u64, mirror_message_id: u64, star_count: u64 },
}

/// What the reconciler decided about one vote-removed event.
#[derive(Debug, Clone, Copy, PartialEq, Eq)]
pub enum VoteRemoveOutcome {
    /// The guards turned the event away; nothing changed.
    Ignored,
    /// The vote was removed; the message has no mirror record.
    NoMirror { count: u64 },
    /// The vote was removed, the count still meets the threshold, and
    /// the record's count is updated: the shell must re-render the
    /// mirror message's footer.
    EditMirror { count: u64, mirror_channel_id: u64, mirror_message_id: u64 },
    /// The vote was removed and the record's count is updated, but the
    /// record stores no mirror message to edit.
    KeepMirror { count: u64 },
    /// The count dropped below the threshold: the shell must delete
    /// the mirror message (if one is recorded) and then remove the
    /// record through `delete_starred_message`.
    RetractMirror { count: u64, mirror_channel_id: Option<u64>, mirror_message_id: Option<u64> },
}

/// What the reconciler decided about an all-votes-cleared event.
#[derive(Debug, Clone, Copy, PartialEq, Eq)]
pub enum ClearOutcome {
    /// No mirror record exists; only the votes were dropped.
    NoMirror,
    /// The shell must delete the mirror message (if one is recorded)
    /// and then remove the record through `delete_starred_message`.
    RetractMirror { mirror_channel_id: Option<u64>, mirror_message_id: Option<u64> },
}

// ------------------------------------------------------------------
// guards
// ------------------------------------------------------------------

/// A vote event passes the guards when it comes from a guild whose
/// starboard is configured and enabled and carries exactly the
/// configured emoji.
pub open spec fn vote_guard_passes(db: Database, guild_id: Option<u64>, emoji: Seq<char>) -> bool {
    match guild_id {
        Some(g) => match db.spec_config(g) {
            Some(c) => c.enabled && c.star_emoji@ == emoji,
            None => false,
        },
        None => false,
    }
}

/// The configuration that let the guard pass.
pub open spec fn guard_config(db: Database, guild_id: Option<u64>) -> StarboardConfig
    recommends
        guild_id is Some,
        db.spec_config(guild_id->0) is Some,
{
    db.spec_config(guild_id->0)->Some_0
}

/// A vote by the message's own author while self-voting is disallowed.
pub open spec fn vote_is_rejected_self_vote(
    db: Database,
    guild_id: Option<u64>,
    author_id: u64,
    voter_id: u64,
) -> bool {
    voter_id == author_id && !guard_config(db, guild_id).self_star_allowed
}

// ------------------------------------------------------------------
// the reconciler
// ------------------------------------------------------------------

/// The full effect of `handle_reaction_add` on the store, and the
/// outcome it owes for every case.
pub open spec fn reaction_add_post(
    pre: Database,
    post: Database,
    guild_id: Option<u64>,
    message_id: u64,
    author_id: u64,
    voter_id: u64,
    emoji: Seq<char>,
    out: VoteAddOutcome,
) -> bool {
    &&& configs_unchanged(pre, post)
    &&& mirrors_unchanged(pre, post)
    &&& if !vote_guard_passes(pre, guild_id, emoji) {
        out == VoteAddOutcome::Ignored && votes_unchanged(pre, post)
    } else if vote_is_rejected_self_vote(pre, guild_id, author_id, voter_id) {
        out == VoteAddOutcome::SelfVoteRejected && votes_unchanged(pre, post)
    } else {
        let threshold = guard_config(pre, guild_id).threshold;
        let count = post.spec_count(message_id);
        &&& votes_unchanged_except(pre, post, message_id)
        &&& post.spec_voters(message_id) == if pre.spec_voters(message_id).contains(voter_id) {
            pre.spec_voters(message_id)
        } else {
            pre.spec_voters(message_id).push(voter_id)
        }
        &&& post.spec_voter_set(message_id) == pre.spec_voter_set(message_id).insert(voter_id)
        &&& out == if count >= threshold {
            VoteAddOutcome::ThresholdCandidate { count: count as u64 }
        } else {
            VoteAddOutcome::Recorded { count: count as u64 }
        }
    }
}

/// React to one vote-added event: guard it, record the vote, and say
/// whether the message became a candidate for mirror reconciliation.
///
/// The shell must fetch the message first (the author is needed for
/// the self-vote guard) and, on `ThresholdCandidate`, take the
/// reconciliation lock and call `update_starboard_message`.
pub fn handle_reaction_add(
    db: &mut Database,
    guild_id: Option<u64>,
    message_id: u64,
    author_id: u64,
    voter_id: u64,
    emoji: &str,
) -> (out: VoteAddOutcome)
    requires
        old(db).wf(),
    ensures
        final(db).wf(),
        reaction_add_post(
            *old(db),
            *final(db),
            guild_id,
            message_id,
            author_id,
            voter_id,
            emoji@,
            out,
        ),
{
    let gid = match guild_id {
        Some(g) => g,
        None => {
            return VoteAddOutcome::Ignored;
        },
    };
    let (enabled, threshold, self_allowed, emoji_ok) = match db.get_starboard_config(gid) {
        Some(c) => (c.enabled, c.threshold, c.self_star_allowed, str_eq(emoji, c.star_emoji.as_str())),
        None => {
            return VoteAddOutcome::Ignored;
        },
    };
    if !enabled || !emoji_ok {
        return VoteAddOutcome::Ignored;
    }
    if voter_id == author_id && !self_allowed {
        return VoteAddOutcome::SelfVoteRejected;
    }
    db.add_star_reaction(message_id, voter_id);
    let count = db.count_star_reactions(message_id);
    if count >= threshold {
        VoteAddOutcome::ThresholdCandidate { count }
    } else {
        VoteAddOutcome::Recorded { count }
    }
}

/// The full effect of the locked reconciliation pass.
pub open spec fn update_starboard_post(
    pre: Database,
    post: Database,
    guild_id: u64,
    message_id: u64,
    d: MirrorDirective,
) -> bool {
    &&& configs_unchanged(pre, post)
    &&& votes_unchanged(pre, post)
    &&& post.spec_next_mirror_id() == pre.spec_next_mirror_id()
    &&& mirrors_unchanged_except(pre, post, message_id)
    &&& {
        let count = pre.spec_count(message_id);
        match pre.spec_config(guild_id) {
            None => d == MirrorDirective::NoAction && mirrors_unchanged(pre, post),
            Some(c) => if count < c.threshold {
                d == MirrorDirective::NoAction && mirrors_unchanged(pre, post)
            } else {
                match c.starboard_channel_id {
                    None => d == MirrorDirective::NoAction && mirrors_unchanged(pre, post),
                    Some(channel) => match pre.spec_mirror(message_id) {
                        Some(r) => {
                            &&& post.spec_mirror(message_id) == Some(StarredMessage {
                                stars: count as u64,
                                ..r
                            })
                            &&& d == match r.starboard_message_id {
                                Some(mm) => MirrorDirective::EditMirror {
                                    mirror_channel_id: channel,
                                    mirror_message_id: mm,
                                    star_count: count as u64,
                                },
                                None => MirrorDirective::NoAction,
                            }
                        },
                        None => {
                            &&& mirrors_unchanged(pre, post)
                            &&& d == MirrorDirective::CreateMirror {
                                mirror_channel_id: channel,
                                star_count: count as u64,
                            }
                        },
                    },
                }
            },
        }
    }
}

/// The locked reconciliation pass: re-read the count and decide the
/// mirror's fate.
///
/// The shell must hold the reconciliation lock across this call and,
/// for `CreateMirror`, across the message send and the
/// `add_starred_message` call that completes the creation: the
/// double-check against the re-read count is what keeps concurrent
/// threshold crossings from creating two mirrors.
pub fn update_starboard_message(db: &mut Database, guild_id: u64, message_id: u64) -> (d:
    MirrorDirective)
    requires
        old(db).wf(),
    ensures
        final(db).wf(),
        update_starboard_post(*old(db), *final(db), guild_id, message_id, d),
{
    let (threshold, channel_opt) = match db.get_starboard_config(guild_id) {
        Some(c) => (c.threshold, c.starboard_channel_id),
        None => {
            return MirrorDirective::NoAction;
        },
    };
    let count = db.count_star_reactions(message_id);
    if count < threshold {
        return MirrorDirective::NoAction;
    }
    let channel = match channel_opt {
        Some(c) => c,
        None => {
            return MirrorDirective::NoAction;
        },
    };
    match db.get_starred_message(message_id) {
        Some(starred) => {
            proof {
                db.lemma_mirror_id_bounded(message_id);
            }
            let mut updated = starred;
            updated.stars = count;
            db.update_starred_message(updated);
            match starred.starboard_message_id {
                Some(mm) => MirrorDirective::EditMirror {
                    mirror_channel_id: channel,
                    mirror_message_id: mm,
                    star_count: count,
                },
                None => MirrorDirective::NoAction,
            }
        },
        None => MirrorDirective::CreateMirror { mirror_channel_id: channel, star_count: count },
    }
}

/// The full effect of `handle_reaction_remove` on the store.
///
/// On `RetractMirror` the record itself is still present: the shell
/// deletes the remote message first and then removes the record, so a
/// failed deletion leaves the record behind for the next event to
/// retry.
pub open spec fn reaction_remove_post(
    pre: Database,
    post: Database,
    guild_id: Option<u64>,
    message_id: u64,
    voter_id: u64,
    emoji: Seq<char>,
    out: VoteRemoveOutcome,
) -> bool {
    &&& configs_unchanged(pre, post)
    &&& post.spec_next_mirror_id() == pre.spec_next_mirror_id()
    &&& if !vote_guard_passes(pre, guild_id, emoji) {
        &&& out == VoteRemoveOutcome::Ignored
        &&& votes_unchanged(pre, post)
        &&& mirrors_unchanged(pre, post)
    } else {
        let threshold = guard_config(pre, guild_id).threshold;
        let count = post.spec_count(message_id);
        &&& votes_unchanged_except(pre, post, message_id)
        &&& !post.spec_voters(message_id).contains(voter_id)
        &&& post.spec_voter_set(message_id) == pre.spec_voter_set(message_id).remove(voter_id)
        &&& post.spec_count(message_id) == pre.spec_count(message_id) - (
        if pre.spec_voters(message_id).contains(voter_id) {
            1int
        } else {
            0int
        })
        &&& mirrors_unchanged_except(pre, post, message_id)
        &&& match pre.spec_mirror(message_id) {
            None => {
                &&& out == VoteRemoveOutcome::NoMirror { count: count as u64 }
                &&& mirrors_unchanged(pre, post)
            },
            Some(r) => if count >= threshold {
                &&& post.spec_mirror(message_id) == Some(StarredMessage {
                    stars: count as u64,
                    ..r
                })
                &&& out == match (r.starboard_channel_id, r.starboard_message_id) {
                    (Some(cc), Some(mm)) => VoteRemoveOutcome::EditMirror {
                        count: count as u64,
                        mirror_channel_id: cc,
                        mirror_message_id: mm,
                    },
                    _ => VoteRemoveOutcome::KeepMirror { count: count as u64 },
                }
            } else {
                &&& mirrors_unchanged(pre, post)
                &&& out == VoteRemoveOutcome::RetractMirror {
                    count: count as u64,
                    mirror_channel_id: r.starboard_channel_id,
                    mirror_message_id: r.starboard_message_id,
                }
            },
        }
    }
}

/// React to one vote-removed event: guard it, delete the vote, and
/// decide whether the mirror is updated in place or retracted.
pub fn handle_reaction_remove(
    db: &mut Database,
    guild_id: Option<u64>,
    message_id: u64,
    voter_id: u64,
    emoji: &str,
) -> (out: VoteRemoveOutcome)
    requires
        old(db).wf(),
    ensures
        final(db).wf(),
        reaction_remove_post(*old(db), *final(db), guild_id, message_id, voter_id, emoji@, out),
{
    let gid = match guild_id {
        Some(g) => g,
        None => {
            return VoteRemoveOutcome::Ignored;
        },
    };
    let (enabled, threshold, emoji_ok) = match db.get_starboard_config(gid) {
        Some(c) => (c.enabled, c.threshold, str_eq(emoji, c.star_emoji.as_str())),
        None => {
            return VoteRemoveOutcome::Ignored;
        },
    };
    if !enabled || !emoji_ok {
        return VoteRemoveOutcome::Ignored;
    }
    db.remove_star_reaction(message_id, voter_id);
    let count = db.count_star_reactions(message_id);
    match db.get_starred_message(message_id) {
        None => VoteRemoveOutcome::NoMirror { count },
        Some(starred) => {
            if count >= threshold {
                proof {
                    db.lemma_mirror_id_bounded(message_id);
                }
                let mut updated = starred;
                updated.stars = count;
                db.update_starred_message(updated);
                match (starred.starboard_channel_id, starred.starboard_message_id) {
                    (Some(cc), Some(mm)) => VoteRemoveOutcome::EditMirror {
                        count,
                        mirror_channel_id: cc,
                        mirror_message_id: mm,
                    },
                    _ => VoteRemoveOutcome::KeepMirror { count },
                }
            } else {
                VoteRemoveOutcome::RetractMirror {
                    count,
                    mirror_channel_id: starred.starboard_channel_id,
                    mirror_message_id: starred.starboard_message_id,
                }
            }
        },
    }
}

/// The full effect of `handle_reaction_remove_all` on the store.
///
/// Every vote on the message is dropped together with the mirror, so
/// a later vote cannot resurrect a stale count: the next mirror only
/// appears after the threshold is reached again from zero.
pub open spec fn reaction_clear_post(
    pre: Database,
    post: Database,
    message_id: u64,
    out: ClearOutcome,
) -> bool {
    &&& configs_unchanged(pre, post)
    &&& mirrors_unchanged(pre, post)
    &&& votes_unchanged_except(pre, post, message_id)
    &&& post.spec_voters(message_id) == Seq::<u64>::empty()
    &&& out == match pre.spec_mirror(message_id) {
        None => ClearOutcome::NoMirror,
        Some(r) => ClearOutcome::RetractMirror {
            mirror_channel_id: r.starboard_channel_id,
            mirror_message_id: r.starboard_message_id,
        },
    }
}

// ------------------------------------------------------------------
// the create path under concurrency
// ------------------------------------------------------------------

/// One message's synchronization state, abstracted to what the create
/// path depends on: the set of voters the store holds for it, and
/// whether a mirror record exists.
pub struct SyncState {
    pub voters: Set<u64>,
    pub mirrored: bool,
}

/// The state of one message in a store.
pub open spec fn sync_view(db: Database, message_id: u64) -> SyncState {
    SyncState { voters: db.spec_voter_set(message_id), mirrored: db.spec_mirror(message_id) is Some }
}

/// The atomic steps that race on one message along the create path:
/// a vote insertion, or one pass through the locked reconciliation
/// (re-read the count and, if it meets the threshold and no record
/// exists, create the mirror and its record before releasing the
/// lock).
pub enum SyncOp {
    AddVote { voter: u64 },
    Reconcile,
}

pub open spec fn sync_step(s: SyncState, op: SyncOp, threshold: nat) -> SyncState {
    match op {
        SyncOp::AddVote { voter } => SyncState { voters: s.voters.insert(voter), ..s },
        SyncOp::Reconcile => if s.voters.len() >= threshold && !s.mirrored {
            SyncState { mirrored: true, ..s }
        } else {
            s
        },
    }
}

/// Whether this step creates the mirror.
pub open spec fn sync_creates(s: SyncState, op: SyncOp, threshold: nat) -> bool {
    op is Reconcile && s.voters.len() >= threshold && !s.mirrored
}

/// The state after a whole interleaving of steps.
pub open spec fn sync_run(s: SyncState, ops: Seq<SyncOp>, threshold: nat) -> SyncState
    decreases ops.len(),
{
    if ops.len() == 0 {
        s
    } else {
        sync_step(sync_run(s, ops.drop_last(), threshold), ops.last(), threshold)
    }
}

/// How many of the steps created a mirror.
pub open spec fn sync_creations(s: SyncState, ops: Seq<SyncOp>, threshold: nat) -> nat
    decreases ops.len(),
{
    if ops.len() == 0 {
        0
    } else {
        sync_creations(s, ops.drop_last(), threshold) + (
        if sync_creates(sync_run(s, ops.drop_last(), threshold), ops.last(), threshold) {
            1nat
        } else {
            0nat
        })
    }
}

proof fn lemma_sync_mirrored_iff_created(s: SyncState, ops: Seq<SyncOp>, threshold: nat)
    ensures
        sync_run(s, ops, threshold).mirrored == (s.mirrored || sync_creations(s, ops, threshold)
            > 0),
    decreases ops.len(),
{
    if ops.len() > 0 {
        lemma_sync_mirrored_iff_created(s, ops.drop_last(), threshold);
    }
}

proof fn lemma_sync_split(s: SyncState, a: Seq<SyncOp>, b: Seq<SyncOp>, threshold: nat)
    ensures
        sync_run(s, a + b, threshold) == sync_run(sync_run(s, a, threshold), b, threshold),
        sync_creations(s, a + b, threshold) == sync_creations(s, a, threshold) + sync_creations(
            sync_run(s, a, threshold),
            b,
            threshold,
        ),
    decreases b.len(),
{
    if b.len() == 0 {
        assert(a + b =~= a);
    } else {
        lemma_sync_split(s, a, b.drop_last(), threshold);
        assert((a + b).drop_last() =~= a + b.drop_last());
        assert((a + b).last() == b.last());
    }
}

/// However vote insertions and locked reconciliation passes for one
/// message interleave, starting from an unmirrored message the mirror
/// is created at most once: creation only happens inside the locked
/// pass when no record exists yet, and it leaves a record behind.
pub proof fn lemma_mirror_created_at_most_once(s: SyncState, ops: Seq<SyncOp>, threshold: nat)
    requires
        !s.mirrored,
    ensures
        sync_creations(s, ops, threshold) <= 1,
    decreases ops.len(),
{
    if ops.len() > 0 {
        lemma_mirror_created_at_most_once(s, ops.drop_last(), threshold);
        lemma_sync_mirrored_iff_created(s, ops.drop_last(), threshold);
    }
}

/// If, somewhere in the interleaving, a locked reconciliation pass
/// runs while the recorded votes already meet the threshold, then the
/// mirror is created exactly once over the whole interleaving. In the
/// racing scenario of several concurrent vote-added events this
/// hypothesis is guaranteed: the event whose insertion pushes the
/// count to the threshold observes that count and runs the locked
/// pass after it.
pub proof fn lemma_mirror_created_exactly_once(
    s: SyncState,
    ops: Seq<SyncOp>,
    threshold: nat,
    j: int,
)
    requires
        !s.mirrored,
        0 <= j < ops.len(),
        ops[j] is Reconcile,
        sync_run(s, ops.take(j), threshold).voters.len() >= threshold,
    ensures
        sync_creations(s, ops, threshold) == 1,
{
    lemma_mirror_created_at_most_once(s, ops, threshold);
    let prefix = ops.take(j + 1);
    let suffix = ops.skip(j + 1);
    assert(ops =~= prefix + suffix);
    lemma_sync_split(s, prefix, suffix, threshold);
    assert(prefix.drop_last() =~= ops.take(j));
    assert(prefix.last() == ops[j]);
    let mid = sync_run(s, ops.take(j), threshold);
    if mid.mirrored {
        lemma_sync_mirrored_iff_created(s, ops.take(j), threshold);
        assert(sync_creations(s, prefix, threshold) >= sync_creations(s, ops.take(j), threshold));
    } else {
        assert(sync_creates(mid, ops[j], threshold));
        assert(sync_creations(s, prefix, threshold) >= 1);
    }
    assert(sync_creations(s, ops, threshold) >= 1);
}

/// The vote-recording step of `handle_reaction_add` moves one
/// message's abstract state by an `AddVote` step.
pub proof fn lemma_add_refines_sync(
    pre: Database,
    post: Database,
    guild_id: Option<u64>,
    message_id: u64,
    author_id: u64,
    voter_id: u64,
    emoji: Seq<char>,
    out: VoteAddOutcome,
    threshold: nat,
)
    requires
        reaction_add_post(pre, post, guild_id, message_id, author_id, voter_id, emoji, out),
        vote_guard_passes(pre, guild_id, emoji),
        !vote_is_rejected_self_vote(pre, guild_id, author_id, voter_id),
    ensures
        sync_view(post, message_id) == sync_step(
            sync_view(pre, message_id),
            SyncOp::AddVote { voter: voter_id },
            threshold,
        ),
{
}

/// A locked reconciliation pass, completed by the shell (for a
/// `CreateMirror` directive: send the mirror message, then store the
/// record through `add_starred_message`, all before the lock is
/// released), moves one message's abstract state by a `Reconcile`
/// step.
pub proof fn lemma_reconcile_refines_sync(
    pre: Database,
    mid: Database,
    post: Database,
    guild_id: u64,
    message_id: u64,
    d: MirrorDirective,
    c: StarboardConfig,
)
    requires
        pre.wf(),
        update_starboard_post(pre, mid, guild_id, message_id, d),
        pre.spec_config(guild_id) == Some(c),
        c.starboard_channel_id is Some,
        d matches MirrorDirective::CreateMirror { .. } ==> votes_unchanged(mid, post)
            && post.spec_mirror(message_id) is Some,
        !(d matches MirrorDirective::CreateMirror { .. }) ==> post == mid,
    ensures
        sync_view(post, message_id) == sync_step(
            sync_view(pre, message_id),
            SyncOp::Reconcile,
            c.threshold as nat,
        ),
{
    pre.lemma_count_is_distinct_voters(message_id);
    assert(post.spec_voter_set(message_id) =~= pre.spec_voter_set(message_id));
}

/// A mirror record created after an earlier record for the same
/// message existed is a genuinely new record, not a resurrection: the
/// id counter never decreases and `add_starred_message` stamps each
/// new record with the counter's current value, so the identifiers
/// differ.
pub proof fn lemma_recreated_mirror_is_fresh(
    prior: Database,
    pre: Database,
    message_id: u64,
    old_rec: StarredMessage,
    new_rec: StarredMessage,
)
    requires
        prior.wf(),
        prior.spec_mirror(message_id) == Some(old_rec),
        prior.spec_next_mirror_id() <= pre.spec_next_mirror_id(),
        new_rec.id == pre.spec_next_mirror_id(),
    ensures
        new_rec.id != old_rec.id,
{
    prior.lemma_mirror_id_bounded(message_id);
}

/// React to all votes being cleared from a message at once: drop every
/// recorded vote and, if a mirror exists, have the shell retract it
/// (delete the remote message, then `delete_starred_message`).
pub fn handle_reaction_remove_all(db: &mut Database, message_id: u64) -> (out: ClearOutcome)
    requires
        old(db).wf(),
    ensures
        final(db).wf(),
        reaction_clear_post(*old(db), *final(db), message_id, out),
{
    let existing = db.get_starred_message(message_id);
    db.clear_star_reactions(message_id);
    match existing {
        None => ClearOutcome::NoMirror,
        Some(r) => ClearOutcome::RetractMirror {
            mirror_channel_id: r.starboard_channel_id,
            mirror_message_id: r.starboard_message_id,
        },
    }
}

} // verus!
