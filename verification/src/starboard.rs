use vstd::prelude::*;
use std::collections::HashMap;
use crate::starboard_message::{StarboardConfig, StarredMessage};

verus! {

broadcast use vstd::std_specs::hash::group_hash_axioms;

/// Failure of a store mutation.
#[derive(Debug, Clone, Copy, PartialEq, Eq)]
pub enum StorageError {
    /// A mirror record for the message already exists.
    DuplicateRecord,
    /// Every record identifier has been handed out.
    IdSpaceExhausted,
}

/// The three starboard tables held in memory: votes, mirror records and
/// per-guild configuration.
///
/// Votes form a relation between messages and voters with at most one
/// entry per pair; mirror records are keyed by the original message;
/// configurations are keyed by guild. Fresh mirror records draw their
/// identifier from `next_mirror_id`, which only ever grows, so a record
/// created after another one was deleted never reuses its identifier.
pub struct Database {
    configs: HashMap<u64, StarboardConfig>,
    votes: HashMap<u64, Vec<u64>>,
    mirrors: HashMap<u64, StarredMessage>,
    next_mirror_id: u64,
}

impl Database {
    /// The voters recorded for a message, in insertion order.
    pub closed spec fn spec_voters(self, message_id: u64) -> Seq<u64> {
        if self.votes@.contains_key(message_id) {
            self.votes@[message_id]@
        } else {
            Seq::empty()
        }
    }

    /// The set of distinct voters recorded for a message.
    pub open spec fn spec_voter_set(self, message_id: u64) -> Set<u64> {
        self.spec_voters(message_id).to_set()
    }

    /// The number of votes recorded for a message.
    pub open spec fn spec_count(self, message_id: u64) -> nat {
        self.spec_voters(message_id).len()
    }

    /// The configuration stored for a guild, if any.
    pub closed spec fn spec_config(self, guild_id: u64) -> Option<StarboardConfig> {
        if self.configs@.contains_key(guild_id) {
            Some(self.configs@[guild_id])
        } else {
            None
        }
    }

    /// The mirror record stored for an original message, if any.
    pub closed spec fn spec_mirror(self, message_id: u64) -> Option<StarredMessage> {
        if self.mirrors@.contains_key(message_id) {
            Some(self.mirrors@[message_id])
        } else {
            None
        }
    }

    /// The identifier the next mirror record will receive.
    pub closed spec fn spec_next_mirror_id(self) -> u64 {
        self.next_mirror_id
    }

    /// Well-formedness: no voter is recorded twice for the same message,
    /// every mirror record sits under its own message key with an
    /// identifier below the counter, and every configuration sits under
    /// its own guild key and is valid.
    pub closed spec fn wf(self) -> bool {
        &&& forall|m: u64|
            #[trigger] self.votes@.contains_key(m) ==> self.votes@[m]@.no_duplicates()
        &&& forall|m: u64|
            #[trigger] self.mirrors@.contains_key(m) ==> self.mirrors@[m].original_message_id == m
                && self.mirrors@[m].id < self.next_mirror_id
        &&& forall|g: u64|
            #[trigger] self.configs@.contains_key(g) ==> self.configs@[g].guild_id == g
                && self.configs@[g].valid()
    }

    /// In a well-formed store the vote count of a message equals the
    /// cardinality of its set of distinct voters.
    pub proof fn lemma_count_is_distinct_voters(self, message_id: u64)
        requires
            self.wf(),
        ensures
            self.spec_voters(message_id).no_duplicates(),
            self.spec_voter_set(message_id).finite(),
            self.spec_count(message_id) == self.spec_voter_set(message_id).len(),
    {
        let s = self.spec_voters(message_id);
        if self.votes@.contains_key(message_id) {
        } else {
            assert(s == Seq::<u64>::empty());
        }
        s.unique_seq_to_set();
    }

    /// A stored configuration is valid and keyed by its own guild.
    pub proof fn lemma_config_valid(self, guild_id: u64)
        requires
            self.wf(),
            self.spec_config(guild_id) is Some,
        ensures
            self.spec_config(guild_id)->Some_0.valid(),
            self.spec_config(guild_id)->Some_0.guild_id == guild_id,
    {
    }

    /// A stored mirror record is keyed by its own message and its
    /// identifier lies below the id counter.
    pub proof fn lemma_mirror_id_bounded(self, message_id: u64)
        requires
            self.wf(),
            self.spec_mirror(message_id) is Some,
        ensures
            self.spec_mirror(message_id)->Some_0.original_message_id == message_id,
            self.spec_mirror(message_id)->Some_0.id < self.spec_next_mirror_id(),
    {
    }

    pub fn new() -> (db: Database)
        ensures
            db.wf(),
            forall|m: u64| db.spec_voters(m) == Seq::<u64>::empty(),
            forall|m: u64| db.spec_mirror(m) is None,
            forall|g: u64| db.spec_config(g) is None,
            db.spec_next_mirror_id() == 0,
    {
        Database {
            configs: HashMap::new(),
            votes: HashMap::new(),
            mirrors: HashMap::new(),
            next_mirror_id: 0,
        }
    }

    /// Store or replace the configuration of a guild.
    ///
    /// Configuration writes are owned by the administrative shell; the
    /// reconciler only ever reads them.
    pub fn set_starboard_config(&mut self, config: StarboardConfig)
        requires
            old(self).wf(),
            config.valid(),
        ensures
            final(self).wf(),
            final(self).spec_config(config.guild_id) == Some(StarboardConfig {
                guild_id: config.guild_id,
                ..config
            }),
            forall|g: u64| g != config.guild_id ==> final(self).spec_config(g) == old(self).spec_config(g),
            votes_unchanged(*old(self), *final(self)),
            mirrors_unchanged(*old(self), *final(self)),
    {
        let guild_id = config.guild_id;
        let stored = StarboardConfig { guild_id, ..config };
        self.configs.insert(guild_id, stored);
    }

    /// Read the configuration of a guild; `None` means the starboard is
    /// not configured there and every event must be a silent no-op.
    pub fn get_starboard_config(&self, guild_id: u64) -> (r: Option<&StarboardConfig>)
        ensures
            match r {
                Some(c) => self.spec_config(guild_id) == Some(*c),
                None => self.spec_config(guild_id) is None,
            },
    {
        self.configs.get(&guild_id)
    }

    /// Record one voter's star on a message. Inserting an already
    /// recorded pair changes nothing: duplicate deliveries of the same
    /// vote event cannot inflate the count.
    pub fn add_star_reaction(&mut self, message_id: u64, user_id: u64)
        requires
            old(self).wf(),
        ensures
            final(self).wf(),
            configs_unchanged(*old(self), *final(self)),
            mirrors_unchanged(*old(self), *final(self)),
            votes_unchanged_except(*old(self), *final(self), message_id),
            final(self).spec_voters(message_id) == if old(self).spec_voters(message_id).contains(user_id) {
                old(self).spec_voters(message_id)
            } else {
                old(self).spec_voters(message_id).push(user_id)
            },
            final(self).spec_voter_set(message_id) == old(self).spec_voter_set(message_id).insert(user_id),
            final(self).spec_voters(message_id).contains(user_id),
            final(self).spec_count(message_id) == old(self).spec_count(message_id) + (
            if old(self).spec_voters(message_id).contains(user_id) {
                0int
            } else {
                1int
            }),
    {
        let ghost pre = *self;
        let mut voters = match self.votes.remove(&message_id) {
            Some(v) => v,
            None => Vec::new(),
        };
        assert(voters@ == pre.spec_voters(message_id));
        if !contains_u64(&voters, user_id) {
            voters.push(user_id);
        }
        self.votes.insert(message_id, voters);
        proof {
            let old_s = pre.spec_voters(message_id);
            let new_s = self.spec_voters(message_id);
            if old_s.contains(user_id) {
                assert(new_s == old_s);
                assert(new_s.to_set() =~= old_s.to_set().insert(user_id));
            } else {
                assert(new_s == old_s.push(user_id));
                assert forall|x: u64| #[trigger] new_s.contains(x) implies old_s.contains(x) || x
                    == user_id by {
                    let j = choose|j: int| 0 <= j < new_s.len() && new_s[j] == x;
                    if j < old_s.len() {
                        assert(old_s[j] == x);
                    }
                };
                assert forall|x: u64| old_s.contains(x) || x == user_id implies
                    #[trigger] new_s.contains(x) by {
                    if x == user_id {
                        assert(new_s[new_s.len() - 1] == x);
                    } else {
                        let j = choose|j: int| 0 <= j < old_s.len() && old_s[j] == x;
                        assert(new_s[j] == x);
                    }
                };
                assert(new_s.to_set() =~= old_s.to_set().insert(user_id));
                assert(new_s.no_duplicates()) by {
                    assert forall|p: int, q: int|
                        0 <= p < new_s.len() && 0 <= q < new_s.len() && p != q implies new_s[p]
                        != new_s[q] by {
                        if p < old_s.len() && q < old_s.len() {
                            assert(old_s.no_duplicates());
                        } else if q == old_s.len() {
                            assert(new_s[q] == user_id);
                            assert(old_s[p] == new_s[p]);
                            assert(!old_s.contains(user_id));
                        } else {
                            assert(new_s[p] == user_id);
                            assert(old_s[q] == new_s[q]);
                            assert(!old_s.contains(user_id));
                        }
                    };
                };
            }
        }
    }

    /// Delete one voter's star on a message; removing an absent pair
    /// changes nothing.
    pub fn remove_star_reaction(&mut self, message_id: u64, user_id: u64)
        requires
            old(self).wf(),
        ensures
            final(self).wf(),
            configs_unchanged(*old(self), *final(self)),
            mirrors_unchanged(*old(self), *final(self)),
            votes_unchanged_except(*old(self), *final(self), message_id),
            !final(self).spec_voters(message_id).contains(user_id),
            forall|u: u64| u != user_id ==> final(self).spec_voters(message_id).contains(u)
                == old(self).spec_voters(message_id).contains(u),
            final(self).spec_voter_set(message_id) == old(self).spec_voter_set(message_id).remove(user_id),
            final(self).spec_count(message_id) == old(self).spec_count(message_id) - (
            if old(self).spec_voters(message_id).contains(user_id) {
                1int
            } else {
                0int
            }),
    {
        let ghost pre = *self;
        let mut voters = match self.votes.remove(&message_id) {
            Some(v) => v,
            None => Vec::new(),
        };
        assert(voters@ == pre.spec_voters(message_id));
        let ghost old_s = voters@;
        match index_of_u64(&voters, user_id) {
            Some(i) => {
                voters.remove(i);
                proof {
                    old_s.remove_ensures(i as int);
                    let new_s = voters@;
                    assert(forall|x: u64| #[trigger] new_s.contains(x) ==> old_s.contains(x))
                        by {
                        assert forall|x: u64| #[trigger] new_s.contains(x) implies old_s.contains(
                            x,
                        ) by {
                            let j = choose|j: int| 0 <= j < new_s.len() && new_s[j] == x;
                            if j < i {
                                assert(old_s[j] == x);
                            } else {
                                assert(old_s[j + 1] == x);
                            }
                        };
                    };
                    assert(!new_s.contains(user_id)) by {
                        if new_s.contains(user_id) {
                            let j = choose|j: int| 0 <= j < new_s.len() && new_s[j] == user_id;
                            if j < i {
                                assert(old_s[j] == user_id);
                                assert(old_s[i as int] == user_id);
                            } else {
                                assert(old_s[j + 1] == user_id);
                                assert(old_s[i as int] == user_id);
                            }
                        }
                    };
                    assert(forall|x: u64| x != user_id && old_s.contains(x)
                        ==> #[trigger] new_s.contains(x)) by {
                        assert forall|x: u64| x != user_id && old_s.contains(x) implies
                            #[trigger] new_s.contains(x) by {
                            let j = choose|j: int| 0 <= j < old_s.len() && old_s[j] == x;
                            if j < i {
                                assert(new_s[j] == x);
                            } else {
                                assert(j != i);
                                assert(new_s[j - 1] == x);
                            }
                        };
                    };
                    assert(new_s.no_duplicates()) by {
                        assert forall|p: int, q: int|
                            0 <= p < new_s.len() && 0 <= q < new_s.len() && p != q implies
                            new_s[p] != new_s[q] by {
                            let p0: int = if p < i { p } else { p + 1 };
                            let q0: int = if q < i { q } else { q + 1 };
                            assert(new_s[p] == old_s[p0]);
                            assert(new_s[q] == old_s[q0]);
                        };
                    };
                    assert(new_s.to_set() =~= old_s.to_set().remove(user_id));
                }
            },
            None => {
                proof {
                    assert(old_s.to_set() =~= old_s.to_set().remove(user_id));
                }
            },
        }
        self.votes.insert(message_id, voters);
    }

    /// Forget every vote recorded for a message.
    pub fn clear_star_reactions(&mut self, message_id: u64)
        requires
            old(self).wf(),
        ensures
            final(self).wf(),
            configs_unchanged(*old(self), *final(self)),
            mirrors_unchanged(*old(self), *final(self)),
            votes_unchanged_except(*old(self), *final(self), message_id),
            final(self).spec_voters(message_id) == Seq::<u64>::empty(),
            final(self).spec_count(message_id) == 0,
    {
        self.votes.remove(&message_id);
    }

    /// The current number of votes on a message.
    pub fn count_star_reactions(&self, message_id: u64) -> (n: u64)
        ensures
            n == self.spec_count(message_id),
    {
        match self.votes.get(&message_id) {
            Some(v) => v.len() as u64,
            None => 0,
        }
    }

    /// Whether a voter has starred a message.
    pub fn has_user_starred(&self, message_id: u64, user_id: u64) -> (r: bool)
        ensures
            r == self.spec_voters(message_id).contains(user_id),
    {
        match self.votes.get(&message_id) {
            Some(v) => contains_u64(v, user_id),
            None => false,
        }
    }

    /// Read the mirror record of an original message, if one exists.
    pub fn get_starred_message(&self, message_id: u64) -> (r: Option<StarredMessage>)
        ensures
            r == self.spec_mirror(message_id),
    {
        match self.mirrors.get(&message_id) {
            Some(m) => Some(*m),
            None => None,
        }
    }

    /// Insert the mirror record of a message that just crossed the
    /// threshold. The stored record takes every field from `message`
    /// except its identifier, which is drawn fresh from the counter.
    /// Fails if a record already exists for the message, or if the
    /// identifier space is used up.
    pub fn add_starred_message(&mut self, message: StarredMessage) -> (r: Result<(), StorageError>)
        requires
            old(self).wf(),
        ensures
            final(self).wf(),
            configs_unchanged(*old(self), *final(self)),
            votes_unchanged(*old(self), *final(self)),
            mirrors_unchanged_except(*old(self), *final(self), message.original_message_id),
            final(self).spec_next_mirror_id() >= old(self).spec_next_mirror_id(),
            match r {
                Ok(()) => {
                    &&& old(self).spec_mirror(message.original_message_id) is None
                    &&& old(self).spec_next_mirror_id() < u64::MAX
                    &&& final(self).spec_mirror(message.original_message_id) == Some(StarredMessage {
                        id: old(self).spec_next_mirror_id(),
                        ..message
                    })
                    &&& final(self).spec_next_mirror_id() == old(self).spec_next_mirror_id() + 1
                },
                Err(StorageError::DuplicateRecord) => {
                    &&& old(self).spec_mirror(message.original_message_id) is Some
                    &&& mirrors_unchanged(*old(self), *final(self))
                },
                Err(StorageError::IdSpaceExhausted) => {
                    &&& old(self).spec_mirror(message.original_message_id) is None
                    &&& old(self).spec_next_mirror_id() == u64::MAX
                    &&& mirrors_unchanged(*old(self), *final(self))
                },
            },
    {
        if self.mirrors.get(&message.original_message_id).is_some() {
            return Err(StorageError::DuplicateRecord);
        }
        if self.next_mirror_id == u64::MAX {
            return Err(StorageError::IdSpaceExhausted);
        }
        let stored = StarredMessage { id: self.next_mirror_id, ..message };
        self.mirrors.insert(message.original_message_id, stored);
        self.next_mirror_id = self.next_mirror_id + 1;
        Ok(())
    }

    /// Re-point an existing mirror record: its star count and mirror
    /// message location are taken from `message`; everything else is
    /// kept. Without an existing record this changes nothing.
    pub fn update_starred_message(&mut self, message: StarredMessage)
        requires
            old(self).wf(),
        ensures
            final(self).wf(),
            configs_unchanged(*old(self), *final(self)),
            votes_unchanged(*old(self), *final(self)),
            mirrors_unchanged_except(*old(self), *final(self), message.original_message_id),
            final(self).spec_next_mirror_id() == old(self).spec_next_mirror_id(),
            match old(self).spec_mirror(message.original_message_id) {
                Some(r) => final(self).spec_mirror(message.original_message_id) == Some(StarredMessage {
                    stars: message.stars,
                    starboard_message_id: message.starboard_message_id,
                    ..r
                }),
                None => final(self).spec_mirror(message.original_message_id) is None,
            },
    {
        match self.mirrors.remove(&message.original_message_id) {
            Some(r) => {
                let updated = StarredMessage {
                    stars: message.stars,
                    starboard_message_id: message.starboard_message_id,
                    ..r
                };
                self.mirrors.insert(message.original_message_id, updated);
            },
            None => {},
        }
    }

    /// Delete the mirror record of a message; deleting an absent record
    /// changes nothing.
    pub fn delete_starred_message(&mut self, message_id: u64)
        requires
            old(self).wf(),
        ensures
            final(self).wf(),
            configs_unchanged(*old(self), *final(self)),
            votes_unchanged(*old(self), *final(self)),
            mirrors_unchanged_except(*old(self), *final(self), message_id),
            final(self).spec_next_mirror_id() == old(self).spec_next_mirror_id(),
            final(self).spec_mirror(message_id) is None,
    {
        self.mirrors.remove(&message_id);
    }
}

// ------------------------------------------------------------------
// the vote store as a fold over events
// ------------------------------------------------------------------

/// One vote event concerning a single message.
#[derive(Debug, Clone, Copy, PartialEq, Eq)]
pub enum VoteEvent {
    Add { voter: u64 },
    Remove { voter: u64 },
}

/// How one event changes the set of voters: exactly the transition
/// that `add_star_reaction` and `remove_star_reaction` promise in
/// their postconditions.
pub open spec fn apply_vote_event(voters: Set<u64>, e: VoteEvent) -> Set<u64> {
    match e {
        VoteEvent::Add { voter } => voters.insert(voter),
        VoteEvent::Remove { voter } => voters.remove(voter),
    }
}

/// The voter set left after a whole sequence of events.
pub open spec fn apply_vote_events(voters: Set<u64>, events: Seq<VoteEvent>) -> Set<u64>
    decreases events.len(),
{
    if events.len() == 0 {
        voters
    } else {
        apply_vote_event(apply_vote_events(voters, events.drop_last()), events.last())
    }
}

/// Whether the last event of `events` that concerns `voter` is an
/// addition.
pub open spec fn last_action_is_add(events: Seq<VoteEvent>, voter: u64) -> bool
    decreases events.len(),
{
    if events.len() == 0 {
        false
    } else if events.last() == (VoteEvent::Add { voter }) {
        true
    } else if events.last() == (VoteEvent::Remove { voter }) {
        false
    } else {
        last_action_is_add(events.drop_last(), voter)
    }
}

/// The store operations realise `apply_vote_event` on the voter set:
/// what `add_star_reaction` and `remove_star_reaction` promise of one
/// message is exactly one event step of the fold.
pub proof fn lemma_vote_op_refines_event(
    pre: Database,
    post: Database,
    message_id: u64,
    e: VoteEvent,
)
    requires
        match e {
            VoteEvent::Add { voter } => post.spec_voter_set(message_id) == pre.spec_voter_set(
                message_id,
            ).insert(voter),
            VoteEvent::Remove { voter } => post.spec_voter_set(message_id) == pre.spec_voter_set(
                message_id,
            ).remove(voter),
        },
    ensures
        post.spec_voter_set(message_id) == apply_vote_event(pre.spec_voter_set(message_id), e),
{
}

/// After any sequence of add and remove events on one message,
/// starting from no votes, the store holds exactly the voters whose
/// last action was an addition, and the vote count equals their
/// number. The store operations realise `apply_vote_event` on the
/// voter set, and in a well-formed store the count equals the set's
/// cardinality (`lemma_count_is_distinct_voters`).
pub proof fn lemma_count_after_events(events: Seq<VoteEvent>)
    ensures
        apply_vote_events(Set::empty(), events) == Set::new(
            |v: u64| last_action_is_add(events, v),
        ),
        apply_vote_events(Set::empty(), events).finite(),
    decreases events.len(),
{
    if events.len() == 0 {
        assert(apply_vote_events(Set::empty(), events) =~= Set::new(
            |v: u64| last_action_is_add(events, v),
        ));
    } else {
        lemma_count_after_events(events.drop_last());
        let pre = apply_vote_events(Set::empty(), events.drop_last());
        let post = apply_vote_events(Set::empty(), events);
        assert forall|v: u64| post.contains(v) == last_action_is_add(events, v) by {
            match events.last() {
                VoteEvent::Add { voter } => {
                    if v != voter {
                        assert(post.contains(v) == pre.contains(v));
                        assert(last_action_is_add(events, v) == last_action_is_add(
                            events.drop_last(),
                            v,
                        ));
                    }
                },
                VoteEvent::Remove { voter } => {
                    if v != voter {
                        assert(post.contains(v) == pre.contains(v));
                        assert(last_action_is_add(events, v) == last_action_is_add(
                            events.drop_last(),
                            v,
                        ));
                    }
                },
            }
        };
        assert(post =~= Set::new(|v: u64| last_action_is_add(events, v)));
    }
}

/// Adding the same vote twice is the same as adding it once, and one
/// addition grows the count by at most one. This is the set-level form
/// of the contract of `add_star_reaction`, whose postcondition turns
/// the voter set into `voters.insert(voter)` whether or not the pair
/// was already present.
pub proof fn lemma_duplicate_add_is_idempotent(voters: Set<u64>, voter: u64)
    requires
        voters.finite(),
    ensures
        voters.insert(voter).insert(voter) == voters.insert(voter),
        voters.insert(voter).len() <= voters.len() + 1,
{
    assert(voters.insert(voter).insert(voter) =~= voters.insert(voter));
    if voters.contains(voter) {
        assert(voters.insert(voter) =~= voters);
    }
}

/// No message's voters changed between the two states.
pub open spec fn votes_unchanged(pre: Database, post: Database) -> bool {
    forall|m: u64| #[trigger] post.spec_voters(m) == pre.spec_voters(m)
}

/// No voters changed except possibly those of `message_id`.
pub open spec fn votes_unchanged_except(pre: Database, post: Database, message_id: u64) -> bool {
    forall|m: u64| m != message_id ==> #[trigger] post.spec_voters(m) == pre.spec_voters(m)
}

/// No guild's configuration changed between the two states.
pub open spec fn configs_unchanged(pre: Database, post: Database) -> bool {
    forall|g: u64| #[trigger] post.spec_config(g) == pre.spec_config(g)
}

/// No mirror record changed between the two states, and no record
/// identifier was consumed.
pub open spec fn mirrors_unchanged(pre: Database, post: Database) -> bool {
    &&& forall|m: u64| #[trigger] post.spec_mirror(m) == pre.spec_mirror(m)
    &&& post.spec_next_mirror_id() == pre.spec_next_mirror_id()
}

/// No mirror record changed except possibly the one of `message_id`.
pub open spec fn mirrors_unchanged_except(pre: Database, post: Database, message_id: u64) -> bool {
    forall|m: u64| m != message_id ==> #[trigger] post.spec_mirror(m) == pre.spec_mirror(m)
}

fn contains_u64(v: &Vec<u64>, x: u64) -> (r: bool)
    ensures
        r == v@.contains(x),
{
    let mut i: usize = 0;
    while i < v.len()
        invariant
            i <= v.len(),
            forall|j: int| 0 <= j < i ==> v@[j] != x,
        decreases v.len() - i,
    {
        if v[i] == x {
            assert(v@.contains(x)) by {
                assert(v@[i as int] == x);
            };
            return true;
        }
        i = i + 1;
    }
    false
}

fn index_of_u64(v: &Vec<u64>, x: u64) -> (r: Option<usize>)
    ensures
        match r {
            Some(i) => i < v@.len() && v@[i as int] == x,
            None => !v@.contains(x),
        },
{
    let mut i: usize = 0;
    while i < v.len()
        invariant
            i <= v.len(),
            forall|j: int| 0 <= j < i ==> v@[j] != x,
        decreases v.len() - i,
    {
        if v[i] == x {
            return Some(i);
        }
        i = i + 1;
    }
    None
}

} // verus!
