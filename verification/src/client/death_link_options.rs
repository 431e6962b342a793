//! The options of a death link.

use vstd::prelude::*;
use vstd::string::StringExecFns;

use crate::protocol::bounce::{Bounce, BounceData, DeathLink, DeathLinkView};

verus! {

/// The options with which a death link is sent. Every option that is left
/// out has a default.
#[derive(Debug, Clone)]
pub struct DeathLinkOptions {
    pub(crate) games: Option<Vec<String>>,
    pub(crate) slots: Option<Vec<String>>,
    pub(crate) time: Option<i64>,
    pub(crate) cause: Option<String>,
    pub(crate) source: Option<String>,
}

/// The death link that `options` describe for a death at the time `now` in
/// the slot called `slot_name`: what the options leave out is filled in from
/// these two.
pub open spec fn death_link_of(
    options: DeathLinkOptions,
    now: i64,
    slot_name: Seq<char>,
) -> DeathLinkView {
    DeathLinkView {
        time: match options.spec_time() {
            Some(time) => time,
            None => now,
        },
        cause: match options.spec_cause() {
            Some(cause) => Some(cause@),
            None => None,
        },
        source: match options.spec_source() {
            Some(source) => source@,
            None => slot_name,
        },
    }
}

impl DeathLinkOptions {
    /// The games that the death link goes to, if they were chosen.
    pub closed spec fn spec_games(self) -> Option<Vec<String>> {
        self.games
    }

    /// The slots that the death link goes to, if they were chosen.
    pub closed spec fn spec_slots(self) -> Option<Vec<String>> {
        self.slots
    }

    /// The time of the death, if it was given.
    pub closed spec fn spec_time(self) -> Option<i64> {
        self.time
    }

    /// The cause of the death, if it was given.
    pub closed spec fn spec_cause(self) -> Option<String> {
        self.cause
    }

    /// The player who died, if it was given.
    pub closed spec fn spec_source(self) -> Option<String> {
        self.source
    }

    /// The options with every option left out.
    pub fn new() -> (options: DeathLinkOptions)
        ensures
            options.spec_games() is None,
            options.spec_slots() is None,
            options.spec_time() is None,
            options.spec_cause() is None,
            options.spec_source() is None,
    {
        DeathLinkOptions { games: None, slots: None, time: None, cause: None, source: None }
    }

    /// Sets the games that the death link goes to. Left out, it goes to all
    /// games.
    pub fn games(self, games: Vec<String>) -> (options: DeathLinkOptions)
        ensures
            options.spec_games() == Some(games),
            options.spec_slots() == self.spec_slots(),
            options.spec_time() == self.spec_time(),
            options.spec_cause() == self.spec_cause(),
            options.spec_source() == self.spec_source(),
    {
        let mut options = self;
        options.games = Some(games);
        options
    }

    /// Sets the slots that the death link goes to. Left out, it goes to all
    /// slots.
    pub fn slots(self, slots: Vec<String>) -> (options: DeathLinkOptions)
        ensures
            options.spec_games() == self.spec_games(),
            options.spec_slots() == Some(slots),
            options.spec_time() == self.spec_time(),
            options.spec_cause() == self.spec_cause(),
            options.spec_source() == self.spec_source(),
    {
        let mut options = self;
        options.slots = Some(slots);
        options
    }

    /// Sets the time of the death, in seconds since the Unix epoch. Left
    /// out, it is the time at which the death link is sent.
    pub fn time(self, time: i64) -> (options: DeathLinkOptions)
        ensures
            options.spec_games() == self.spec_games(),
            options.spec_slots() == self.spec_slots(),
            options.spec_time() == Some(time),
            options.spec_cause() == self.spec_cause(),
            options.spec_source() == self.spec_source(),
    {
        let mut options = self;
        options.time = Some(time);
        options
    }

    /// Sets the cause of the death, which should name the player. Left out,
    /// no cause is given.
    pub fn cause(self, cause: String) -> (options: DeathLinkOptions)
        ensures
            options.spec_games() == self.spec_games(),
            options.spec_slots() == self.spec_slots(),
            options.spec_time() == self.spec_time(),
            options.spec_cause() == Some(cause),
            options.spec_source() == self.spec_source(),
    {
        let mut options = self;
        options.cause = Some(cause);
        options
    }

    /// Sets the name of the player who died. Left out, it is the name of
    /// the sender's slot.
    pub fn source(self, source: String) -> (options: DeathLinkOptions)
        ensures
            options.spec_games() == self.spec_games(),
            options.spec_slots() == self.spec_slots(),
            options.spec_time() == self.spec_time(),
            options.spec_cause() == self.spec_cause(),
            options.spec_source() == Some(source),
    {
        let mut options = self;
        options.source = Some(source);
        options
    }
}

impl DeathLinkOptions {
    /// Makes the message that the options describe, for a death at the time
    /// `now` in the slot called `slot_name`: it goes to the chosen games and
    /// slots and holds the death link that [`death_link_of`] states. It
    /// has no tags of its own.
    pub fn into_bounce(self, now: i64, slot_name: &str) -> (bounce: Bounce)
        ensures
            bounce.games == self.spec_games(),
            bounce.slots == self.spec_slots(),
            bounce.tags@ == Seq::<String>::empty(),
            bounce.data matches BounceData::DeathLink(death_link) && death_link@ == death_link_of(
                self,
                now,
                slot_name@,
            ),
    {
        let DeathLinkOptions { games, slots, time, cause, source } = self;
        let time = match time {
            Some(time) => time,
            None => now,
        };
        let source = match source {
            Some(source) => source,
            None => String::from_str(slot_name),
        };
        Bounce {
            games,
            slots,
            tags: Vec::new(),
            data: BounceData::DeathLink(DeathLink { time, cause, source }),
        }
    }
}

impl Default for DeathLinkOptions {
    fn default() -> (options: DeathLinkOptions)
        ensures
            options.spec_games() is None,
            options.spec_slots() is None,
            options.spec_time() is None,
            options.spec_cause() is None,
            options.spec_source() is None,
    {
        DeathLinkOptions::new()
    }
}

} // verus!
