//! The one-shot completion signal of a challenge round.
//!
//! During one HTTP-01 validation round a short-lived listener serves the
//! challenge proof at the token path. Every hit answers with the proof,
//! but only the first one fires the completion signal that lets the
//! orchestrator go on: a take-once guard over the round's state. The
//! listener itself (bind, serve, await) lives outside the library; it
//! holds the round under a lock and calls [`ChallengeRound::respond`]
//! once per hit.

use vstd::prelude::*;
use vstd::string::StringExecFns;

verus! {

/// The state of one validation round: the proof to serve and whether the
/// completion signal has already fired.
#[derive(Debug)]
pub struct ChallengeRound {
    proof_text: String,
    fired: bool,
}

/// Mathematical image of a round.
pub struct SpecRound {
    pub proof_text: Seq<char>,
    pub fired: bool,
}

impl View for ChallengeRound {
    type V = SpecRound;

    closed spec fn view(&self) -> SpecRound {
        SpecRound { proof_text: self.proof_text@, fired: self.fired }
    }
}

/// What one hit does to a round: the proof is served unchanged, the
/// signal fires exactly when it had not fired before, and afterwards it
/// has fired.
pub open spec fn spec_hit(s: SpecRound) -> (SpecRound, bool) {
    (SpecRound { proof_text: s.proof_text, fired: true }, !s.fired)
}

impl ChallengeRound {
    /// A fresh round that serves `proof_text` and has not signalled yet.
    pub fn new(proof_text: String) -> (r: Self)
        ensures
            r@.proof_text == proof_text@,
            !r@.fired,
    {
        ChallengeRound { proof_text, fired: false }
    }

    /// Answer one hit on the challenge path: the response body is the
    /// proof, and the returned flag says whether to fire the completion
    /// signal — true on the first hit of the round, false ever after.
    pub fn respond(&mut self) -> (r: (String, bool))
        ensures
            r.0@ == old(self)@.proof_text,
            (final(self)@, r.1) == spec_hit(old(self)@),
    {
        let signal = !self.fired;
        self.fired = true;
        (self.proof_text.clone(), signal)
    }
}

/// The round reached by `n` hits in a row.
pub open spec fn spec_run_hits(s: SpecRound, n: nat) -> SpecRound
    decreases n,
{
    if n == 0 {
        s
    } else {
        spec_hit(spec_run_hits(s, (n - 1) as nat)).0
    }
}

/// How many of `n` hits in a row fired the signal.
pub open spec fn spec_signal_count(s: SpecRound, n: nat) -> nat
    decreases n,
{
    if n == 0 {
        0
    } else {
        spec_signal_count(s, (n - 1) as nat) + (
        if spec_hit(spec_run_hits(s, (n - 1) as nat)).1 {
            1nat
        } else {
            0nat
        })
    }
}

/// After at least one hit the round has fired, however it started.
proof fn lemma_run_hits_fired(s: SpecRound, n: nat)
    requires
        n >= 1,
    ensures
        spec_run_hits(s, n).fired,
    decreases n,
{
    if n > 1 {
        lemma_run_hits_fired(s, (n - 1) as nat);
    }
}

/// Exactly one completion signal fires per challenge round: however many
/// hits (at least one) reach the challenge path during a round, the
/// first fires the signal and no later one does.
pub proof fn lemma_one_signal_per_round(s: SpecRound, n: nat)
    requires
        !s.fired,
        n >= 1,
    ensures
        spec_signal_count(s, n) == 1,
    decreases n,
{
    if n == 1 {
        assert(spec_run_hits(s, 0) == s);
        assert(spec_signal_count(s, 0) == 0);
        assert(spec_hit(s).1);
    } else {
        lemma_one_signal_per_round(s, (n - 1) as nat);
        lemma_run_hits_fired(s, (n - 1) as nat);
        assert(!spec_hit(spec_run_hits(s, (n - 1) as nat)).1);
    }
}

} // verus!
