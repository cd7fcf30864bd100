//! Session and round bookkeeping: one session runs a fixed number of
//! rounds chosen by the difficulty tier, counts submitted answers (a
//! timeout counts as a wrong answer through the same path), and finishes
//! once the counter reaches the cap.

use vstd::prelude::*;

verus! {

/// The lifecycle of a quiz session.
#[derive(Debug, Clone, Copy, PartialEq, Eq, Structural)]
pub enum SessionPhase {
    NotStarted,
    Running,
    Finished,
}

/// How many rounds the given difficulty tier runs: 10 for the short tier,
/// 25 for the medium tier, and the effectively-unbounded sentinel for the
/// long tier. Unknown tiers run zero rounds, so such a session finishes
/// at once.
pub open spec fn tier_rounds_spec(tier: i32) -> u32 {
    if tier == 0 {
        10u32
    } else if tier == 1 {
        25u32
    } else if tier == 2 {
        99u32
    } else {
        0u32
    }
}

/// The round cap of a difficulty tier.
pub fn tier_rounds(tier: i32) -> (r: u32)
    ensures
        r == tier_rounds_spec(tier),
{
    if tier == 0 {
        10
    } else if tier == 1 {
        25
    } else if tier == 2 {
        99
    } else {
        0
    }
}

/// The session bookkeeping record: its phase, the rounds answered so far,
/// and the cap of the chosen tier.
#[derive(Debug, Clone, Copy, PartialEq, Eq, Structural)]
pub struct SessionState {
    pub phase: SessionPhase,
    pub round: u32,
    pub max_rounds: u32,
}

/// A running session has not yet reached its cap.
pub open spec fn session_wf(s: SessionState) -> bool {
    s.phase == SessionPhase::Running ==> s.round < s.max_rounds
}

/// The session record right after a start on the given tier.
pub open spec fn start_spec(tier: i32) -> SessionState {
    SessionState {
        phase: if tier_rounds_spec(tier) > 0 {
            SessionPhase::Running
        } else {
            SessionPhase::Finished
        },
        round: 0,
        max_rounds: tier_rounds_spec(tier),
    }
}

/// The session record after one more accepted answer.
pub open spec fn submit_spec(s: SessionState) -> SessionState {
    SessionState {
        phase: if s.round + 1 >= s.max_rounds {
            SessionPhase::Finished
        } else {
            SessionPhase::Running
        },
        round: (s.round + 1) as u32,
        max_rounds: s.max_rounds,
    }
}

/// The session record after `k` accepted answers.
pub open spec fn submits(s: SessionState, k: nat) -> SessionState
    decreases k,
{
    if k == 0 {
        s
    } else {
        submit_spec(submits(s, (k - 1) as nat))
    }
}

/// A session started on a tier with a positive cap still runs after
/// fewer answers than the cap and finishes exactly at the cap: on the
/// short tier, nine answers leave it running and the tenth finishes it.
pub proof fn lemma_session_rounds(tier: i32, k: nat)
    requires
        tier_rounds_spec(tier) > 0,
        k <= tier_rounds_spec(tier),
    ensures
        submits(start_spec(tier), k).round == k,
        submits(start_spec(tier), k).max_rounds == tier_rounds_spec(tier),
        submits(start_spec(tier), k).phase == if k < tier_rounds_spec(tier) {
            SessionPhase::Running
        } else {
            SessionPhase::Finished
        },
    decreases k,
{
    if k > 0 {
        lemma_session_rounds(tier, (k - 1) as nat);
    }
}

impl SessionState {
    /// A fresh, not yet started session.
    pub fn new() -> (s: SessionState)
        ensures
            s.phase == SessionPhase::NotStarted,
            s.round == 0,
            session_wf(s),
    {
        SessionState { phase: SessionPhase::NotStarted, round: 0, max_rounds: 0 }
    }

    /// Starts (or restarts) a session on the given difficulty tier: the
    /// round counter resets and the cap is re-derived from the tier. A
    /// tier with a zero cap finishes immediately.
    pub fn start(&mut self, tier: i32)
        ensures
            *final(self) == start_spec(tier),
            final(self).round == 0,
            final(self).max_rounds == tier_rounds_spec(tier),
            final(self).phase == if tier_rounds_spec(tier) > 0 {
                SessionPhase::Running
            } else {
                SessionPhase::Finished
            },
            session_wf(*final(self)),
    {
        let cap: u32 = tier_rounds(tier);
        self.round = 0;
        self.max_rounds = cap;
        self.phase = if cap > 0 {
            SessionPhase::Running
        } else {
            SessionPhase::Finished
        };
    }

    /// Accepts one answer (or one timeout, which travels the same path):
    /// the round counter advances, and the session finishes exactly when
    /// the counter reaches the cap.
    pub fn submit_answer(&mut self)
        requires
            old(self).phase == SessionPhase::Running,
            session_wf(*old(self)),
        ensures
            *final(self) == submit_spec(*old(self)),
            final(self).round == old(self).round + 1,
            final(self).max_rounds == old(self).max_rounds,
            final(self).phase == if old(self).round + 1 >= old(self).max_rounds {
                SessionPhase::Finished
            } else {
                SessionPhase::Running
            },
            session_wf(*final(self)),
    {
        self.round = self.round + 1;
        if self.round >= self.max_rounds {
            self.phase = SessionPhase::Finished;
        }
    }

    /// Whether the session has finished.
    pub fn is_finished(&self) -> (r: bool)
        ensures
            r == (self.phase == SessionPhase::Finished),
    {
        match self.phase {
            SessionPhase::Finished => true,
            _ => false,
        }
    }
}

} // verus!
