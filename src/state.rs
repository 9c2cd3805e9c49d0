use vstd::prelude::*;

use crate::pubkey::Pubkey;

verus! {

/// The largest strength a pathway can reach.
pub const MAX_STRENGTH: u8 = 255;

/// The identity of a pathway: its ordered pair of agents.
#[derive(Clone, Copy, Debug)]
pub struct PathwayKey {
    pub source_agent: Pubkey,
    pub target_agent: Pubkey,
}

impl View for PathwayKey {
    type V = (Seq<u8>, Seq<u8>);

    open spec fn view(&self) -> (Seq<u8>, Seq<u8>) {
        (self.source_agent@, self.target_agent@)
    }
}

impl PathwayKey {
    pub fn new(source_agent: Pubkey, target_agent: Pubkey) -> (r: PathwayKey)
        ensures
            r@ == (source_agent@, target_agent@),
    {
        PathwayKey { source_agent, target_agent }
    }

    pub fn same(&self, other: &PathwayKey) -> (r: bool)
        ensures
            r == (self@ == other@),
    {
        self.source_agent.same(&other.source_agent) && self.target_agent.same(&other.target_agent)
    }
}

/// What a use of a pathway came to.
#[derive(Clone, Copy, Debug, PartialEq, Eq, Structural)]
pub enum Outcome {
    Success,
    Failure,
}

/// A directed pathway between two agents, with its strength and usage counts.
#[derive(Clone, Copy, Debug)]
pub struct NeuralPathway {
    pub source_agent: Pubkey,
    pub target_agent: Pubkey,
    pub strength: u8,
    pub created_at: i64,
    pub last_used: i64,
    pub success_count: u64,
    pub failure_count: u64,
}

/// One more than `s`, held at 255.
pub open spec fn strength_up(s: u8) -> u8 {
    if s == 255 { 255 } else { (s + 1) as u8 }
}

/// One less than `s`, held at 0.
pub open spec fn strength_down(s: u8) -> u8 {
    if s == 0 { 0 } else { (s - 1) as u8 }
}

/// One more than `c`, held at the largest `u64`.
pub open spec fn count_up(c: u64) -> u64 {
    if c == u64::MAX { c } else { (c + 1) as u64 }
}

impl NeuralPathway {
    pub open spec fn key(self) -> (Seq<u8>, Seq<u8>) {
        (self.source_agent@, self.target_agent@)
    }

    /// A fresh pathway made at time `now`.
    pub open spec fn spec_new(source_agent: Pubkey, target_agent: Pubkey, now: i64) -> NeuralPathway {
        NeuralPathway {
            source_agent,
            target_agent,
            strength: 1,
            created_at: now,
            last_used: now,
            success_count: 0,
            failure_count: 0,
        }
    }

    /// The pathway after one use with the given outcome at time `now`.
    pub open spec fn spec_reinforced(self, outcome: Outcome, now: i64) -> NeuralPathway {
        match outcome {
            Outcome::Success => NeuralPathway {
                strength: strength_up(self.strength),
                success_count: count_up(self.success_count),
                last_used: now,
                ..self
            },
            Outcome::Failure => NeuralPathway {
                strength: strength_down(self.strength),
                failure_count: count_up(self.failure_count),
                last_used: now,
                ..self
            },
        }
    }

    /// A pathway from `source_agent` to `target_agent` created at `now`:
    /// strength 1, no uses, both timestamps `now`.
    pub fn new(source_agent: Pubkey, target_agent: Pubkey, now: i64) -> (r: NeuralPathway)
        ensures
            r == NeuralPathway::spec_new(source_agent, target_agent, now),
    {
        NeuralPathway {
            source_agent,
            target_agent,
            strength: 1,
            created_at: now,
            last_used: now,
            success_count: 0,
            failure_count: 0,
        }
    }

    pub fn key_of(&self) -> (r: PathwayKey)
        ensures
            r@ == self.key(),
    {
        PathwayKey::new(self.source_agent, self.target_agent)
    }

    /// Applies one use: a success raises the strength by one and a failure
    /// lowers it by one, both saturating at 0 and 255; the matching counter
    /// grows by one and `last_used` becomes `now`.
    pub fn reinforce(&mut self, outcome: Outcome, now: i64)
        ensures
            *final(self) == old(self).spec_reinforced(outcome, now),
    {
        match outcome {
            Outcome::Success => {
                if self.strength < MAX_STRENGTH {
                    self.strength = self.strength + 1;
                }
                if self.success_count < u64::MAX {
                    self.success_count = self.success_count + 1;
                }
            },
            Outcome::Failure => {
                if self.strength > 0 {
                    self.strength = self.strength - 1;
                }
                if self.failure_count < u64::MAX {
                    self.failure_count = self.failure_count + 1;
                }
            },
        }
        self.last_used = now;
    }
}

} // verus!
