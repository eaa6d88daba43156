//! Per-user voice-channel occupancy tracking with duplicate-join suppression.
use std::collections::HashMap;
use vstd::prelude::*;

verus! {

broadcast use vstd::std_specs::hash::group_hash_axioms;

/// The direction of a logical occupancy transition: the user entered a voice
/// channel, or the user is (or remains) out of every voice channel.
#[derive(Clone, Copy, Debug, PartialEq, Eq, Structural)]
pub enum Direction {
    Joined,
    Left,
}

/// Whether `flags` records `user` as currently occupying a voice channel.
/// A user without an entry has never been observed and counts as absent.
pub open spec fn present_in(flags: Map<u64, bool>, user: u64) -> bool {
    flags.contains_key(user) && flags[user]
}

/// The occupancy map after one raw voice-state signal for `user` is absorbed.
pub open spec fn step(flags: Map<u64, bool>, user: u64, now_in_channel: bool) -> Map<u64, bool> {
    flags.insert(user, now_in_channel)
}

/// The transition emitted for one raw voice-state signal. A repeated
/// "in a channel" signal (a mute or deafen toggle while present) is
/// suppressed; a "not in a channel" signal always emits `Left`, even when the
/// user was already recorded as absent.
pub open spec fn emitted(flags: Map<u64, bool>, user: u64, now_in_channel: bool) -> Option<
    Direction,
> {
    if !now_in_channel {
        Some(Direction::Left)
    } else if present_in(flags, user) {
        None
    } else {
        Some(Direction::Joined)
    }
}

/// Records, for every user observed so far, whether they currently occupy a
/// voice channel, and collapses the raw signal stream into logical
/// join/leave transitions. Entries are never removed: the user population is
/// bounded, and an absent entry already means absent.
pub struct PresenceTracker {
    in_voice: HashMap<u64, bool>,
}

impl PresenceTracker {
    /// The tracked occupancy flags, one entry per user observed so far.
    pub closed spec fn flags(self) -> Map<u64, bool> {
        self.in_voice@
    }

    /// Whether `user` is currently recorded as occupying a voice channel.
    pub open spec fn is_present(self, user: u64) -> bool {
        present_in(self.flags(), user)
    }

    /// A tracker that has observed nobody: every user counts as absent.
    pub fn new() -> (tracker: PresenceTracker)
        ensures
            tracker.flags() == Map::<u64, bool>::empty(),
    {
        PresenceTracker { in_voice: HashMap::new() }
    }

    /// Absorb one raw voice-state signal: `now_in_channel` is true when the
    /// signal names any voice channel as the user's current one. Returns the
    /// logical transition, or `None` when the signal fired without a change
    /// of occupancy (mute or deafen while present). Total: no input is
    /// rejected.
    pub fn process(&mut self, user: u64, now_in_channel: bool) -> (transition: Option<Direction>)
        ensures
            final(self).flags() == step(old(self).flags(), user, now_in_channel),
            transition == emitted(old(self).flags(), user, now_in_channel),
    {
        if now_in_channel {
            let already_present = match self.in_voice.get(&user) {
                Some(flag) => *flag,
                None => false,
            };
            if already_present {
                proof {
                    assert(self.flags().insert(user, true) =~= self.flags());
                }
                None
            } else {
                self.in_voice.insert(user, true);
                Some(Direction::Joined)
            }
        } else {
            self.in_voice.insert(user, false);
            Some(Direction::Left)
        }
    }
}

/// A join signal for a user not currently present emits `Joined`, and a
/// second join signal for the same user with no intervening leave signal is
/// suppressed.
pub proof fn lemma_duplicate_join_suppressed(flags: Map<u64, bool>, user: u64)
    requires
        !present_in(flags, user),
    ensures
        emitted(flags, user, true) == Some(Direction::Joined),
        emitted(step(flags, user, true), user, true) is None,
{
}

/// A leave signal after a join signal for the same user emits `Left`.
pub proof fn lemma_leave_after_join(flags: Map<u64, bool>, user: u64)
    ensures
        emitted(step(flags, user, true), user, false) == Some(Direction::Left),
{
}

/// A leave signal for a user never observed before still emits `Left`:
/// leave signals are never suppressed, unlike duplicate join signals. This
/// asymmetry is deliberate and is kept for compatibility.
pub proof fn lemma_leave_without_prior_join(flags: Map<u64, bool>, user: u64)
    requires
        !flags.contains_key(user),
    ensures
        emitted(flags, user, false) == Some(Direction::Left),
{
}

/// Absorbing a signal for one user never disturbs any other user's flag.
pub proof fn lemma_step_isolates_users(
    flags: Map<u64, bool>,
    user: u64,
    now_in_channel: bool,
    other: u64,
)
    requires
        other != user,
    ensures
        step(flags, user, now_in_channel).contains_key(other) == flags.contains_key(other),
        present_in(step(flags, user, now_in_channel), other) == present_in(flags, other),
{
}

} // verus!
