//! Progression towards rescue: collecting the beacon parts, bringing them to
//! the rescue point, and sending the signal once.

use vstd::prelude::*;
use crate::items::{CollectedItems, BEACON_PARTS_NEEDED, beacon_count};

verus! {

/// Where the player stands in the game.
#[derive(Clone, Copy, Debug, PartialEq, Eq, Structural)]
pub enum GameState {
    /// Looking for the beacon parts.
    Collecting,
    /// All parts found; the ship calls the player back.
    Collected,
    /// The beacon is assembled at the rescue point.
    Finished,
}

/// Whether the rescue signal has gone out.
#[derive(Clone, Copy, Debug, PartialEq, Eq, Structural)]
pub enum SignalStatus {
    NotSent,
    Sent,
}

/// The player's current game state.
pub struct CurrentState(pub GameState);

/// The rescue point's signal status.
pub struct SignalSent(pub SignalStatus);

/// How far along the game is: 0, 1, 2.
pub open spec fn stage(s: GameState) -> int {
    match s {
        GameState::Collecting => 0,
        GameState::Collected => 1,
        GameState::Finished => 2,
    }
}

/// The game state after counting `parts` collected beacon parts.
pub open spec fn after_parts_check(s: GameState, parts: int) -> GameState {
    if parts == BEACON_PARTS_NEEDED && s == GameState::Collecting {
        GameState::Collected
    } else {
        s
    }
}

/// The game state after checking whether the player is at the rescue point.
pub open spec fn after_rescue_check(s: GameState, at_rescue_point: bool) -> GameState {
    if at_rescue_point && s == GameState::Collected {
        GameState::Finished
    } else {
        s
    }
}

/// The signal status after a check against the game state, and whether the
/// signal goes out now.
pub open spec fn after_signal_check(sig: SignalStatus, s: GameState) -> (SignalStatus, bool) {
    if sig == SignalStatus::NotSent && s == GameState::Finished {
        (SignalStatus::Sent, true)
    } else {
        (sig, false)
    }
}

impl CurrentState {
    /// A new game: collecting.
    pub fn new() -> (r: CurrentState)
        ensures
            r.0 == GameState::Collecting,
    {
        CurrentState(GameState::Collecting)
    }

    /// Moves on to "collected" when all beacon parts are found while still
    /// collecting; returns whether it did, in which case the player is told to
    /// go back to the ship.
    pub fn check_parts(&mut self, num_parts: u32) -> (announce: bool)
        ensures
            final(self).0 == after_parts_check(old(self).0, num_parts as int),
            announce == (num_parts == BEACON_PARTS_NEEDED && old(self).0 == GameState::Collecting),
    {
        if num_parts == BEACON_PARTS_NEEDED && self.0 == GameState::Collecting {
            self.0 = GameState::Collected;
            true
        } else {
            false
        }
    }

    /// Counts the beacon parts among `collected` and moves on as
    /// [`CurrentState::check_parts`] does.
    pub fn parts_collected(&mut self, collected: &CollectedItems) -> (announce: bool)
        ensures
            final(self).0 == after_parts_check(old(self).0, beacon_count(collected.items())),
            announce == (beacon_count(collected.items()) == BEACON_PARTS_NEEDED
                && old(self).0 == GameState::Collecting),
    {
        let num_parts = collected.beacon_parts();
        self.check_parts(num_parts)
    }

    /// Finishes the game when the player, having all parts, reaches the rescue
    /// point; returns whether it did, in which case the player is told that
    /// the signal is out.
    pub fn check_rescue(&mut self, at_rescue_point: bool) -> (announce: bool)
        ensures
            final(self).0 == after_rescue_check(old(self).0, at_rescue_point),
            announce == (at_rescue_point && old(self).0 == GameState::Collected),
    {
        if at_rescue_point && self.0 == GameState::Collected {
            self.0 = GameState::Finished;
            true
        } else {
            false
        }
    }

    /// Whether the ship's call (the repeating SOS sound) plays: only between
    /// finding all parts and reaching the rescue point.
    pub fn ship_calling(&self) -> (r: bool)
        ensures
            r == (self.0 == GameState::Collected),
    {
        self.0 == GameState::Collected
    }
}

impl SignalSent {
    /// The signal has not gone out.
    pub fn new() -> (r: SignalSent)
        ensures
            r.0 == SignalStatus::NotSent,
    {
        SignalSent(SignalStatus::NotSent)
    }

    /// Sends the signal once the game is finished, if it has not gone out
    /// yet; returns whether it went out now (and the alarm sound plays).
    pub fn send_if_finished(&mut self, state: &CurrentState) -> (sent_now: bool)
        ensures
            (final(self).0, sent_now) == after_signal_check(old(self).0, state.0),
    {
        if self.0 == SignalStatus::NotSent && state.0 == GameState::Finished {
            self.0 = SignalStatus::Sent;
            true
        } else {
            false
        }
    }
}

/// The game never goes back: neither check lowers the stage, and a finished
/// game stays finished.
pub proof fn lemma_progress_monotone(s: GameState, parts: int, at_rescue_point: bool)
    ensures
        stage(after_parts_check(s, parts)) >= stage(s),
        stage(after_rescue_check(s, at_rescue_point)) >= stage(s),
        s == GameState::Finished ==> after_parts_check(s, parts) == GameState::Finished,
        s == GameState::Finished ==> after_rescue_check(s, at_rescue_point) == GameState::Finished,
{
}

/// Each check advances at most one stage: the game is collected only after
/// all parts were counted while collecting, and finished only from collected
/// at the rescue point.
pub proof fn lemma_no_stage_skipped(s: GameState, parts: int, at_rescue_point: bool)
    ensures
        after_parts_check(s, parts) == GameState::Collected && s != GameState::Collected
            ==> s == GameState::Collecting && parts == BEACON_PARTS_NEEDED,
        after_rescue_check(s, at_rescue_point) == GameState::Finished && s != GameState::Finished
            ==> s == GameState::Collected && at_rescue_point,
        after_parts_check(s, parts) != GameState::Finished || s == GameState::Finished,
        after_rescue_check(s, at_rescue_point) != GameState::Collected || s == GameState::Collected,
{
}

/// The signal goes out at most once, and only in a finished game.
pub proof fn lemma_signal_sent_once(sig: SignalStatus, s: GameState, t: GameState)
    ensures
        after_signal_check(sig, s).1 ==> s == GameState::Finished && sig == SignalStatus::NotSent,
        !after_signal_check(after_signal_check(sig, s).0, t).1 || !after_signal_check(sig, s).1,
        after_signal_check(sig, s).1 ==> after_signal_check(sig, s).0 == SignalStatus::Sent,
        sig == SignalStatus::Sent ==> after_signal_check(sig, s) == (SignalStatus::Sent, false),
{
}

/// One of the checks the game makes every update.
#[derive(Clone, Copy, Debug, PartialEq, Eq, Structural)]
pub enum Check {
    /// The beacon parts were counted: this many.
    Parts(u32),
    /// The player was found at (true) or away from (false) the rescue point.
    Rescue(bool),
    /// The signal status was checked against the game state.
    Signal,
}

/// Game state and signal status after one check.
pub open spec fn after_check(g: (GameState, SignalStatus), c: Check) -> (GameState, SignalStatus) {
    match c {
        Check::Parts(n) => (after_parts_check(g.0, n as int), g.1),
        Check::Rescue(b) => (after_rescue_check(g.0, b), g.1),
        Check::Signal => (g.0, after_signal_check(g.1, g.0).0),
    }
}

/// Game state and signal status after a run of checks, in order.
pub open spec fn after_checks(g: (GameState, SignalStatus), cs: Seq<Check>) -> (GameState, SignalStatus)
    decreases cs.len(),
{
    if cs.len() == 0 {
        g
    } else {
        after_check(after_checks(g, cs.drop_last()), cs.last())
    }
}

/// Over a whole game, whatever the checks: a new game reaches "collected"
/// only if some count found all beacon parts, and the rescue signal goes out
/// only in a finished game, hence only after all parts were found.
pub proof fn lemma_signal_needs_all_parts(cs: Seq<Check>)
    ensures
        ({
            let g = after_checks((GameState::Collecting, SignalStatus::NotSent), cs);
            &&& stage(g.0) >= 1 ==> exists|i: int| 0 <= i < cs.len() && cs[i] == Check::Parts(BEACON_PARTS_NEEDED)
            &&& g.1 == SignalStatus::Sent ==> g.0 == GameState::Finished
        }),
    decreases cs.len(),
{
    if cs.len() > 0 {
        let w = cs.drop_last();
        lemma_signal_needs_all_parts(w);
        let g = after_checks((GameState::Collecting, SignalStatus::NotSent), w);
        if stage(g.0) >= 1 {
            let i = choose|i: int| 0 <= i < w.len() && w[i] == Check::Parts(BEACON_PARTS_NEEDED);
            assert(cs[i] == Check::Parts(BEACON_PARTS_NEEDED));
        } else {
            let h = after_check(g, cs.last());
            if stage(h.0) >= 1 {
                assert(cs[cs.len() - 1] == Check::Parts(BEACON_PARTS_NEEDED));
            }
        }
    }
}

} // verus!
