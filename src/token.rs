use vstd::prelude::*;

use crate::error::NeuralPathwayError;
use crate::pubkey::Pubkey;
use crate::state::PathwayKey;
use crate::store::{has_key, index_of, PathwayStore};
use crate::state::NeuralPathway;

verus! {

/// A token record as plain values.
pub struct TokenView {
    pub pathway_id: (Seq<u8>, Seq<u8>),
    pub mint: Seq<u8>,
    pub owner: Seq<u8>,
    pub created_at: i64,
    pub strength: u8,
    pub uri: Seq<char>,
}

/// An issued token: which pathway it stands for, its mint and holder, and the
/// pathway's strength when it was issued.
#[derive(Debug)]
pub struct TokenMetadata {
    pub pathway_id: PathwayKey,
    pub mint: Pubkey,
    pub owner: Pubkey,
    pub created_at: i64,
    pub strength: u8,
    pub uri: String,
}

impl View for TokenMetadata {
    type V = TokenView;

    open spec fn view(&self) -> TokenView {
        TokenView {
            pathway_id: self.pathway_id@,
            mint: self.mint@,
            owner: self.owner@,
            created_at: self.created_at,
            strength: self.strength,
            uri: self.uri@,
        }
    }
}

impl TokenMetadata {
    /// A token record issued at `now` for the pathway `pathway_id`, whose
    /// strength was then `strength`.
    pub fn new(
        pathway_id: PathwayKey,
        mint: Pubkey,
        owner: Pubkey,
        uri: String,
        strength: u8,
        now: i64,
    ) -> (r: TokenMetadata)
        ensures
            r@ == (TokenView {
                pathway_id: pathway_id@,
                mint: mint@,
                owner: owner@,
                created_at: now,
                strength,
                uri: uri@,
            }),
    {
        TokenMetadata { pathway_id, mint, owner, created_at: now, strength, uri }
    }

    /// A copy of the record.
    pub fn duplicate(&self) -> (r: TokenMetadata)
        ensures
            r@ == self@,
    {
        TokenMetadata {
            pathway_id: self.pathway_id,
            mint: self.mint,
            owner: self.owner,
            created_at: self.created_at,
            strength: self.strength,
            uri: self.uri.clone(),
        }
    }
}

/// Whether some token in `ts` has the mint `m`.
pub open spec fn has_mint(ts: Seq<TokenView>, m: Seq<u8>) -> bool {
    exists|i: int| 0 <= i < ts.len() && #[trigger] ts[i].mint == m
}

/// No two tokens share a mint.
pub open spec fn registry_wf(ts: Seq<TokenView>) -> bool {
    forall|i: int, j: int|
        0 <= i < ts.len() && 0 <= j < ts.len() && i != j ==> #[trigger] ts[i].mint != #[trigger] ts[j].mint
}

/// What Issue answers, and the tokens after it, given the pathways `ps`.
pub open spec fn spec_issue(
    ts: Seq<TokenView>,
    ps: Seq<NeuralPathway>,
    pathway_id: (Seq<u8>, Seq<u8>),
    mint: Seq<u8>,
    owner: Seq<u8>,
    uri: Seq<char>,
    now: i64,
) -> (Result<TokenView, NeuralPathwayError>, Seq<TokenView>) {
    if !has_key(ps, pathway_id) {
        (Err(NeuralPathwayError::InvalidAgent), ts)
    } else if has_mint(ts, mint) {
        (Err(NeuralPathwayError::PathwayAlreadyExists), ts)
    } else {
        let t = TokenView {
            pathway_id,
            mint,
            owner,
            created_at: now,
            strength: ps[index_of(ps, pathway_id)].strength,
            uri,
        };
        (Ok(t), ts.push(t))
    }
}

/// A result with its record as plain values.
pub open spec fn result_view(r: Result<TokenMetadata, NeuralPathwayError>) -> Result<
    TokenView,
    NeuralPathwayError,
> {
    match r {
        Ok(t) => Ok(t@),
        Err(e) => Err(e),
    }
}

/// The issued tokens, at most one for each mint.
pub struct TokenRegistry {
    tokens: Vec<TokenMetadata>,
}

impl View for TokenRegistry {
    type V = Seq<TokenView>;

    closed spec fn view(&self) -> Seq<TokenView> {
        self.tokens@.map_values(|t: TokenMetadata| t@)
    }
}

impl TokenRegistry {
    pub open spec fn wf(&self) -> bool {
        registry_wf(self@)
    }

    /// An empty registry.
    pub fn new() -> (r: TokenRegistry)
        ensures
            r@ == Seq::<TokenView>::empty(),
            r.wf(),
    {
        let r = TokenRegistry { tokens: Vec::new() };
        assert(r@ =~= Seq::<TokenView>::empty());
        r
    }

    /// The number of tokens.
    pub fn len(&self) -> (r: usize)
        ensures
            r == self@.len(),
    {
        self.tokens.len()
    }

    /// The position of the token with mint `mint`, or `None` where there is none.
    fn find(&self, mint: &Pubkey) -> (r: Option<usize>)
        ensures
            match r {
                Some(i) => i < self@.len() && self@[i as int].mint == mint@,
                None => !has_mint(self@, mint@),
            },
    {
        let mut i: usize = 0;
        while i < self.tokens.len()
            invariant
                0 <= i <= self.tokens@.len(),
                self@.len() == self.tokens@.len(),
                forall|j: int| 0 <= j < self@.len() ==> #[trigger] self@[j] == self.tokens@[j]@,
                forall|j: int| 0 <= j < i ==> #[trigger] self@[j].mint != mint@,
            decreases self.tokens@.len() - i,
        {
            if self.tokens[i].mint.same(mint) {
                return Some(i);
            }
            i = i + 1;
        }
        None
    }

    /// The token with mint `mint`, or `None` where there is none.
    pub fn get(&self, mint: &Pubkey) -> (r: Option<&TokenMetadata>)
        requires
            self.wf(),
        ensures
            match r {
                Some(t) => has_mint(self@, mint@) && t@ == self@[choose|i: int|
                    0 <= i < self@.len() && #[trigger] self@[i].mint == mint@],
                None => !has_mint(self@, mint@),
            },
    {
        match self.find(mint) {
            Some(i) => {
                proof {
                    let c = choose|j: int| 0 <= j < self@.len() && #[trigger] self@[j].mint == mint@;
                    assert(self@[i as int].mint == mint@);
                    assert(c == i);
                }
                Some(&self.tokens[i])
            },
            None => None,
        }
    }

    /// Issues the token `mint`, held by `owner`, for the pathway `pathway_id`
    /// at time `now`; the record keeps the pathway's strength as it stands now
    /// and is not changed by later uses of the pathway. Fails with
    /// `InvalidAgent` where there is no such pathway and with
    /// `PathwayAlreadyExists` where the mint was issued before; on failure
    /// nothing changes.
    pub fn issue(
        &mut self,
        pathways: &PathwayStore,
        pathway_id: PathwayKey,
        mint: Pubkey,
        owner: Pubkey,
        uri: String,
        now: i64,
    ) -> (r: Result<TokenMetadata, NeuralPathwayError>)
        requires
            old(self).wf(),
            pathways.wf(),
        ensures
            final(self).wf(),
            (result_view(r), final(self)@) == spec_issue(
                old(self)@,
                pathways@,
                pathway_id@,
                mint@,
                owner@,
                uri@,
                now,
            ),
    {
        let p = match pathways.get(&pathway_id) {
            Some(p) => p,
            None => {
                return Err(NeuralPathwayError::InvalidAgent);
            },
        };
        if self.find(&mint).is_some() {
            return Err(NeuralPathwayError::PathwayAlreadyExists);
        }
        let t = TokenMetadata::new(pathway_id, mint, owner, uri, p.strength, now);
        let out = t.duplicate();
        self.tokens.push(t);
        proof {
            let ts = self@;
            let olds = old(self)@;
            assert(ts =~= olds.push(out@));
            assert forall|i: int, j: int|
                0 <= i < ts.len() && 0 <= j < ts.len() && i != j implies #[trigger] ts[i].mint
                != #[trigger] ts[j].mint by {
                if i == ts.len() - 1 {
                    assert(ts[j] == olds[j]);
                } else if j == ts.len() - 1 {
                    assert(ts[i] == olds[i]);
                } else {
                    assert(ts[i] == olds[i]);
                    assert(ts[j] == olds[j]);
                }
            }
        }
        Ok(out)
    }
}

} // verus!
