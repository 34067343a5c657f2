use vstd::prelude::*;

verus! {

/// Per-guild starboard settings, one entry per guild.
///
/// `starboard_channel_id` may be absent even while the feature is enabled;
/// every event is then a silent no-op. `star_emoji` is matched exactly
/// against the emoji carried by a vote event.
#[derive(Debug)]
pub struct StarboardConfig {
    pub guild_id: u64,
    pub starboard_channel_id: Option<u64>,
    pub threshold: u64,
    pub star_emoji: String,
    pub self_star_allowed: bool,
    pub enabled: bool,
}

impl StarboardConfig {
    /// A configuration is meaningful only with a threshold of at least one vote.
    pub open spec fn valid(self) -> bool {
        self.threshold >= 1
    }
}

impl Clone for StarboardConfig {
    fn clone(&self) -> (res: Self)
        ensures
            res == *self,
    {
        StarboardConfig {
            guild_id: self.guild_id,
            starboard_channel_id: self.starboard_channel_id,
            threshold: self.threshold,
            star_emoji: self.star_emoji.clone(),
            self_star_allowed: self.self_star_allowed,
            enabled: self.enabled,
        }
    }
}

/// The projection of one starred message onto the starboard channel:
/// where the original lives, where its mirror lives (once created), and
/// the star count the mirror was last rendered with.
#[derive(Debug, Clone, Copy, PartialEq, Eq)]
pub struct StarredMessage {
    pub id: u64,
    pub original_message_id: u64,
    pub original_channel_id: u64,
    pub starboard_message_id: Option<u64>,
    pub starboard_channel_id: Option<u64>,
    pub stars: u64,
    pub created_at: Option<u64>,
}

} // verus!
