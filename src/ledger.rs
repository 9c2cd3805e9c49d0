use vstd::prelude::*;

use crate::error::NeuralPathwayError;
use crate::pubkey::Pubkey;
use crate::state::{NeuralPathway, Outcome, PathwayKey};
use crate::store::{spec_create, spec_reinforce, PathwayStore};
use crate::token::{result_view, spec_issue, TokenMetadata, TokenRegistry};

verus! {

/// A request to the ledger, by kind, with its payload.
#[derive(Debug)]
pub enum Request {
    CreatePathway { source_agent: Pubkey, target_agent: Pubkey },
    ReinforcePathway { identity_key: PathwayKey, outcome: Outcome },
    IssueToken { pathway_id: PathwayKey, mint: Pubkey, owner: Pubkey, uri: String },
}

/// The record that a request made or changed.
#[derive(Debug)]
pub enum Response {
    Pathway(NeuralPathway),
    Token(TokenMetadata),
}

/// The pathway in a response, where it holds one.
pub open spec fn pathway_result(r: Result<Response, NeuralPathwayError>) -> Result<
    NeuralPathway,
    NeuralPathwayError,
> {
    match r {
        Ok(Response::Pathway(p)) => Ok(p),
        Ok(Response::Token(_)) => Err(NeuralPathwayError::InvalidInstruction),
        Err(e) => Err(e),
    }
}

/// The token in a response, where it holds one.
pub open spec fn token_result(r: Result<Response, NeuralPathwayError>) -> Result<
    TokenMetadata,
    NeuralPathwayError,
> {
    match r {
        Ok(Response::Token(t)) => Ok(t),
        Ok(Response::Pathway(_)) => Err(NeuralPathwayError::InvalidInstruction),
        Err(e) => Err(e),
    }
}

/// The two stores of the ledger.
pub struct Ledger {
    pub pathways: PathwayStore,
    pub tokens: TokenRegistry,
}

impl Ledger {
    pub open spec fn wf(&self) -> bool {
        self.pathways.wf() && self.tokens.wf()
    }

    /// A ledger with no pathways and no tokens.
    pub fn new() -> (r: Ledger)
        ensures
            r.wf(),
            r.pathways@ == Seq::<NeuralPathway>::empty(),
            r.tokens@.len() == 0,
    {
        Ledger { pathways: PathwayStore::new(), tokens: TokenRegistry::new() }
    }

    /// Applies one request at time `now`, with the ledger's storage attestation
    /// for a new record, as a whole or not at all: a pathway request changes
    /// the pathways alone, a token request the tokens alone.
    pub fn process(&mut self, request: Request, storage_eligible: bool, now: i64) -> (r: Result<
        Response,
        NeuralPathwayError,
    >)
        requires
            old(self).wf(),
        ensures
            final(self).wf(),
            match request {
                Request::CreatePathway { source_agent, target_agent } => {
                    &&& r is Err || r->Ok_0 is Pathway
                    &&& final(self).tokens@ == old(self).tokens@
                    &&& (pathway_result(r), final(self).pathways@) == spec_create(
                        old(self).pathways@,
                        source_agent,
                        target_agent,
                        storage_eligible,
                        now,
                    )
                },
                Request::ReinforcePathway { identity_key, outcome } => {
                    &&& r is Err || r->Ok_0 is Pathway
                    &&& final(self).tokens@ == old(self).tokens@
                    &&& (pathway_result(r), final(self).pathways@) == spec_reinforce(
                        old(self).pathways@,
                        identity_key@,
                        outcome,
                        now,
                    )
                },
                Request::IssueToken { pathway_id, mint, owner, uri } => {
                    &&& r is Err || r->Ok_0 is Token
                    &&& final(self).pathways@ == old(self).pathways@
                    &&& (result_view(token_result(r)), final(self).tokens@) == spec_issue(
                        old(self).tokens@,
                        old(self).pathways@,
                        pathway_id@,
                        mint@,
                        owner@,
                        uri@,
                        now,
                    )
                },
            },
    {
        match request {
            Request::CreatePathway { source_agent, target_agent } => {
                match self.pathways.create(source_agent, target_agent, storage_eligible, now) {
                    Ok(p) => Ok(Response::Pathway(p)),
                    Err(e) => Err(e),
                }
            },
            Request::ReinforcePathway { identity_key, outcome } => {
                match self.pathways.reinforce(&identity_key, outcome, now) {
                    Ok(p) => Ok(Response::Pathway(p)),
                    Err(e) => Err(e),
                }
            },
            Request::IssueToken { pathway_id, mint, owner, uri } => {
                match self.tokens.issue(&self.pathways, pathway_id, mint, owner, uri, now) {
                    Ok(t) => Ok(Response::Token(t)),
                    Err(e) => Err(e),
                }
            },
        }
    }
}

} // verus!
