//! `MPMoviePlayerController`: the active player and the notifications
//! waiting to be posted. Some apps start a player and wait for a
//! notification but cannot handle it arriving immediately, so notifications
//! are queued until the app next returns to the run loop. Times are in
//! nanoseconds on a monotonic clock that the caller reads.
use vstd::prelude::*;
use crate::mach_o::{spec_strip_prefix, strip_prefix};

verus! {

/// A notification waiting to be posted: its name, its object and the time
/// from which it may be posted.
pub type PendingNotification = (&'static str, u32, u64);

pub const MPMoviePlayerPlaybackDidFinishNotification: &'static str =
    "MPMoviePlayerPlaybackDidFinishNotification";
pub const MPMoviePlayerContentPreloadDidFinishNotification: &'static str =
    "MPMoviePlayerContentPreloadDidFinishNotification";

pub struct State {
    /// The player that is playing, if any (retained).
    active_player: Option<u32>,
    pending_notifications: Vec<PendingNotification>,
}

impl State {
    pub closed spec fn spec_active_player(&self) -> Option<u32> {
        self.active_player
    }

    pub closed spec fn pending(&self) -> Seq<PendingNotification> {
        self.pending_notifications@
    }

    /// No player, nothing pending.
    pub fn new() -> (s: State)
        ensures
            s.spec_active_player() is None,
            s.pending().len() == 0,
    {
        State { active_player: None, pending_notifications: Vec::new() }
    }

    /// The player that is playing, if any.
    pub fn active_player(&self) -> (p: Option<u32>)
        ensures
            p == self.spec_active_player(),
    {
        self.active_player
    }

    /// Queues a notification.
    pub fn queue_notification(&mut self, name: &'static str, object: u32, time: u64)
        ensures
            final(self).pending() == old(self).pending().push((name, object, time)),
            final(self).spec_active_player() == old(self).spec_active_player(),
    {
        self.pending_notifications.push((name, object, time));
    }

    /// `player` starts playing at time `now` (any other player has been
    /// stopped first). Playback is not emulated, so it finishes at once:
    /// the finish notification is queued.
    pub fn start_playing(&mut self, player: u32, now: u64)
        requires
            old(self).spec_active_player() is None,
        ensures
            final(self).spec_active_player() == Some(player),
            final(self).pending() == old(self).pending().push(
                (MPMoviePlayerPlaybackDidFinishNotification, player, now),
            ),
    {
        self.active_player = Some(player);
        self.pending_notifications.push((MPMoviePlayerPlaybackDidFinishNotification, player, now));
    }

    /// `player` stops. Returns whether it was the active player, which the
    /// caller then releases.
    pub fn stop(&mut self, player: u32) -> (was_active: bool)
        requires
            old(self).spec_active_player() matches Some(p) ==> p == player,
        ensures
            was_active == old(self).spec_active_player() is Some,
            final(self).spec_active_player() is None,
            final(self).pending() == old(self).pending(),
    {
        match self.active_player.take() {
            Some(_) => true,
            None => false,
        }
    }

    /// Removes the notifications due at time `now` and returns them, to be
    /// posted; the others stay queued. (The order among the due ones, and
    /// among those that stay, may change.)
    pub fn take_due_notifications(&mut self, now: u64) -> (due: Vec<PendingNotification>)
        ensures
            due@.to_multiset().add(final(self).pending().to_multiset()) == old(self).pending().to_multiset(),
            forall|i: int| 0 <= i < due@.len() ==> #[trigger] due@[i].2 <= now,
            forall|i: int| 0 <= i < final(self).pending().len() ==> #[trigger] final(self).pending()[i].2 > now,
            final(self).spec_active_player() == old(self).spec_active_player(),
    {
        let mut due: Vec<PendingNotification> = Vec::new();
        let mut i: usize = 0;
        proof {
            broadcast use vstd::seq_lib::group_to_multiset_ensures, vstd::multiset::group_multiset_axioms;
            assert(due@.to_multiset().add(self.pending_notifications@.to_multiset()) =~= old(self).pending().to_multiset());
        }
        while i < self.pending_notifications.len()
            invariant
                i <= self.pending_notifications@.len(),
                due@.to_multiset().add(self.pending_notifications@.to_multiset()) == old(self).pending().to_multiset(),
                forall|j: int| 0 <= j < due@.len() ==> #[trigger] due@[j].2 <= now,
                forall|j: int| 0 <= j < i ==> #[trigger] self.pending_notifications@[j].2 > now,
                self.active_player == old(self).active_player,
            decreases self.pending_notifications@.len() - i,
        {
            let entry = self.pending_notifications[i];
            if entry.2 <= now {
                let ghost before = self.pending_notifications@;
                let ghost due_before = due@;
                let removed = self.pending_notifications.swap_remove(i);
                due.push(removed);
                proof {
                    broadcast use vstd::seq_lib::group_to_multiset_ensures, vstd::multiset::group_multiset_axioms;
                    lemma_swap_remove_multiset(before, i as int);
                    assert(due@ == due_before.push(removed));
                    assert(due@.to_multiset().add(self.pending_notifications@.to_multiset()) =~= due_before.to_multiset().add(before.to_multiset()));
                    let rest = self.pending_notifications@;
                    assert forall|j: int| 0 <= j < i implies #[trigger] rest[j].2 > now by {
                        assert(rest[j] == before[j]);
                    }
                }
            } else {
                i = i + 1;
            }
        }
        due
    }
}

proof fn lemma_swap_remove_multiset(s: Seq<PendingNotification>, i: int)
    requires
        0 <= i < s.len(),
    ensures
        s.to_multiset() == s.update(i, s.last()).drop_last().to_multiset().insert(s[i]),
{
    broadcast use vstd::seq_lib::group_to_multiset_ensures, vstd::multiset::group_multiset_axioms;
    let u = s.update(i, s.last());
    let t = u.drop_last();
    assert(u =~= t.push(s.last()));
    assert(u.to_multiset() == s.to_multiset().insert(s.last()).remove(s[i]));
    assert(t.push(s.last()).to_multiset() == t.to_multiset().insert(s.last()));
    assert(s.to_multiset().count(s[i]) > 0);
    assert forall|v: PendingNotification| #[trigger] s.to_multiset().count(v) == t.to_multiset().insert(s[i]).count(v) by {
        assert(t.to_multiset().insert(s.last()).count(v) == s.to_multiset().insert(s.last()).remove(s[i]).count(v));
    }
    assert(s.to_multiset() =~= t.to_multiset().insert(s[i]));
}

/// The bundle identifier prefixes `com.ea` and `com.firemint`.
pub open spec fn ea_prefix() -> Seq<u8> {
    seq![0x63u8, 0x6fu8, 0x6du8, 0x2eu8, 0x65u8, 0x61u8]
}

pub open spec fn firemint_prefix() -> Seq<u8> {
    seq![0x63u8, 0x6fu8, 0x6du8, 0x2eu8, 0x66u8, 0x69u8, 0x72u8, 0x65u8, 0x6du8, 0x69u8, 0x6eu8, 0x74u8]
}

/// `com.ea.spore`.
pub open spec fn spore_prefix() -> Seq<u8> {
    seq![0x63u8, 0x6fu8, 0x6du8, 0x2eu8, 0x65u8, 0x61u8, 0x2eu8, 0x73u8, 0x70u8, 0x6fu8, 0x72u8, 0x65u8]
}

/// Whether playing a movie finishes it at once: for EA and Firemint titles
/// (by bundle identifier), except in the app picker, `-play` posts the
/// duration-available and playback-finished notifications right away and
/// no player becomes active; `MPMoviePlayerViewController` only works for
/// them.
pub fn finishes_movies_at_once(is_app_picker: bool, bundle_identifier: &[u8]) -> (b: bool)
    ensures
        b == (!is_app_picker && (spec_strip_prefix(bundle_identifier@, ea_prefix()) is Some
            || spec_strip_prefix(bundle_identifier@, firemint_prefix()) is Some)),
{
    if is_app_picker {
        return false;
    }
    let ea: [u8; 6] = [0x63, 0x6f, 0x6d, 0x2e, 0x65, 0x61];
    let firemint: [u8; 12] = [0x63, 0x6f, 0x6d, 0x2e, 0x66, 0x69, 0x72, 0x65, 0x6d, 0x69, 0x6e, 0x74];
    assert(ea@ =~= ea_prefix());
    assert(firemint@ =~= firemint_prefix());
    strip_prefix(bundle_identifier, &ea).is_some() || strip_prefix(bundle_identifier, &firemint).is_some()
}

/// Whether `-setMovieControlMode:` queues the playback-finished
/// notification again, which Spore Origins waits for.
pub fn resends_finish_on_control_mode(bundle_identifier: &[u8]) -> (b: bool)
    ensures
        b == (spec_strip_prefix(bundle_identifier@, spore_prefix()) is Some),
{
    let spore: [u8; 12] = [0x63, 0x6f, 0x6d, 0x2e, 0x65, 0x61, 0x2e, 0x73, 0x70, 0x6f, 0x72, 0x65];
    assert(spore@ =~= spore_prefix());
    strip_prefix(bundle_identifier, &spore).is_some()
}

} // verus!
