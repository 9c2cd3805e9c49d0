use vstd::prelude::*;

use crate::error::NeuralPathwayError;
use crate::pubkey::Pubkey;
use crate::state::{NeuralPathway, Outcome, PathwayKey};
use crate::validation::{validate_agent_pair, validate_storage};

verus! {

/// Whether some pathway in `ps` has the key `k`.
pub open spec fn has_key(ps: Seq<NeuralPathway>, k: (Seq<u8>, Seq<u8>)) -> bool {
    exists|i: int| 0 <= i < ps.len() && #[trigger] ps[i].key() == k
}

/// The position of the pathway with key `k`, where there is one.
pub open spec fn index_of(ps: Seq<NeuralPathway>, k: (Seq<u8>, Seq<u8>)) -> int {
    choose|i: int| 0 <= i < ps.len() && #[trigger] ps[i].key() == k
}

/// No two pathways share a key, and none joins an agent to itself.
pub open spec fn store_wf(ps: Seq<NeuralPathway>) -> bool {
    &&& forall|i: int, j: int|
        0 <= i < ps.len() && 0 <= j < ps.len() && i != j ==> #[trigger] ps[i].key() != #[trigger] ps[j].key()
    &&& forall|i: int| 0 <= i < ps.len() ==> #[trigger] ps[i].source_agent@ != ps[i].target_agent@
}

/// What Create answers, and the records after it.
pub open spec fn spec_create(
    ps: Seq<NeuralPathway>,
    source_agent: Pubkey,
    target_agent: Pubkey,
    storage_eligible: bool,
    now: i64,
) -> (Result<NeuralPathway, NeuralPathwayError>, Seq<NeuralPathway>) {
    if source_agent@ == target_agent@ {
        (Err(NeuralPathwayError::InvalidAgent), ps)
    } else if has_key(ps, (source_agent@, target_agent@)) {
        (Err(NeuralPathwayError::PathwayAlreadyExists), ps)
    } else if !storage_eligible {
        (Err(NeuralPathwayError::NotRentExempt), ps)
    } else {
        let p = NeuralPathway::spec_new(source_agent, target_agent, now);
        (Ok(p), ps.push(p))
    }
}

/// What Reinforce answers, and the records after it.
pub open spec fn spec_reinforce(
    ps: Seq<NeuralPathway>,
    k: (Seq<u8>, Seq<u8>),
    outcome: Outcome,
    now: i64,
) -> (Result<NeuralPathway, NeuralPathwayError>, Seq<NeuralPathway>) {
    if has_key(ps, k) {
        let i = index_of(ps, k);
        let p = ps[i].spec_reinforced(outcome, now);
        (Ok(p), ps.update(i, p))
    } else {
        (Err(NeuralPathwayError::InvalidAgent), ps)
    }
}

/// The pathway with key `k`, where there is one.
pub open spec fn spec_lookup(ps: Seq<NeuralPathway>, k: (Seq<u8>, Seq<u8>)) -> Option<NeuralPathway> {
    if has_key(ps, k) {
        Some(ps[index_of(ps, k)])
    } else {
        None
    }
}

/// The pathways of the ledger, at most one for each ordered pair of agents.
pub struct PathwayStore {
    pathways: Vec<NeuralPathway>,
}

impl View for PathwayStore {
    type V = Seq<NeuralPathway>;

    closed spec fn view(&self) -> Seq<NeuralPathway> {
        self.pathways@
    }
}

impl PathwayStore {
    pub open spec fn wf(&self) -> bool {
        store_wf(self@)
    }

    /// An empty store.
    pub fn new() -> (r: PathwayStore)
        ensures
            r@ == Seq::<NeuralPathway>::empty(),
            r.wf(),
    {
        PathwayStore { pathways: Vec::new() }
    }

    /// The number of pathways.
    pub fn len(&self) -> (r: usize)
        ensures
            r == self@.len(),
    {
        self.pathways.len()
    }

    /// The position of the pathway with key `k`, or `None` where there is none.
    fn find(&self, k: &PathwayKey) -> (r: Option<usize>)
        ensures
            match r {
                Some(i) => i < self@.len() && self@[i as int].key() == k@,
                None => !has_key(self@, k@),
            },
    {
        let mut i: usize = 0;
        while i < self.pathways.len()
            invariant
                0 <= i <= self.pathways@.len(),
                self@ == self.pathways@,
                forall|j: int| 0 <= j < i ==> #[trigger] self@[j].key() != k@,
            decreases self.pathways@.len() - i,
        {
            let here = self.pathways[i].key_of();
            if here.same(k) {
                return Some(i);
            }
            i = i + 1;
        }
        None
    }

    /// The pathway with key `k`, or `None` where there is none.
    pub fn get(&self, k: &PathwayKey) -> (r: Option<NeuralPathway>)
        requires
            self.wf(),
        ensures
            r == spec_lookup(self@, k@),
    {
        match self.find(k) {
            Some(i) => {
                proof {
                    let c = index_of(self@, k@);
                    assert(self@[i as int].key() == k@);
                    assert(c == i);
                }
                Some(self.pathways[i])
            },
            None => None,
        }
    }

    /// Creates the pathway from `source_agent` to `target_agent` at time `now`.
    /// Fails with `InvalidAgent` where the two agents are the same, with
    /// `PathwayAlreadyExists` where the pair has a pathway already, and with
    /// `NotRentExempt` where the ledger does not attest the storage; on failure
    /// nothing changes.
    pub fn create(
        &mut self,
        source_agent: Pubkey,
        target_agent: Pubkey,
        storage_eligible: bool,
        now: i64,
    ) -> (r: Result<NeuralPathway, NeuralPathwayError>)
        requires
            old(self).wf(),
        ensures
            final(self).wf(),
            (r, final(self)@) == spec_create(old(self)@, source_agent, target_agent, storage_eligible, now),
    {
        if let Err(e) = validate_agent_pair(&source_agent, &target_agent) {
            return Err(e);
        }
        let k = PathwayKey::new(source_agent, target_agent);
        if self.find(&k).is_some() {
            return Err(NeuralPathwayError::PathwayAlreadyExists);
        }
        if let Err(e) = validate_storage(storage_eligible) {
            return Err(e);
        }
        let p = NeuralPathway::new(source_agent, target_agent, now);
        self.pathways.push(p);
        proof {
            let ps = self@;
            assert forall|i: int, j: int|
                0 <= i < ps.len() && 0 <= j < ps.len() && i != j implies #[trigger] ps[i].key()
                != #[trigger] ps[j].key() by {
                if i == ps.len() - 1 {
                    assert(ps[j] == old(self)@[j]);
                } else if j == ps.len() - 1 {
                    assert(ps[i] == old(self)@[i]);
                } else {
                    assert(ps[i] == old(self)@[i]);
                    assert(ps[j] == old(self)@[j]);
                }
            }
        }
        Ok(p)
    }

    /// Applies one use with the given outcome at time `now` to the pathway
    /// with key `k` (see `NeuralPathway::reinforce`), and returns it as it now
    /// stands. Fails with `InvalidAgent`, changing nothing, where there is no
    /// such pathway.
    pub fn reinforce(&mut self, k: &PathwayKey, outcome: Outcome, now: i64) -> (r: Result<
        NeuralPathway,
        NeuralPathwayError,
    >)
        requires
            old(self).wf(),
        ensures
            final(self).wf(),
            (r, final(self)@) == spec_reinforce(old(self)@, k@, outcome, now),
    {
        match self.find(k) {
            Some(i) => {
                proof {
                    let c = index_of(self@, k@);
                    assert(self@[i as int].key() == k@);
                    assert(c == i);
                }
                let mut p = self.pathways[i];
                p.reinforce(outcome, now);
                self.pathways.set(i, p);
                proof {
                    let ps = self@;
                    assert forall|a: int| 0 <= a < ps.len() implies #[trigger] ps[a].key()
                        == old(self)@[a].key() by {}
                    assert forall|a: int, b: int|
                        0 <= a < ps.len() && 0 <= b < ps.len() && a != b implies #[trigger] ps[a].key()
                        != #[trigger] ps[b].key() by {
                        assert(ps[a].key() == old(self)@[a].key());
                        assert(ps[b].key() == old(self)@[b].key());
                    }
                    assert forall|a: int| 0 <= a < ps.len() implies #[trigger] ps[a].source_agent@
                        != ps[a].target_agent@ by {
                        assert(ps[a].key() == old(self)@[a].key());
                    }
                }
                Ok(p)
            },
            None => Err(NeuralPathwayError::InvalidAgent),
        }
    }
}

} // verus!
