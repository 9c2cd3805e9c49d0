use vstd::prelude::*;

use crate::error::NeuralPathwayError;
use crate::pubkey::Pubkey;
use crate::state::{strength_down, strength_up, NeuralPathway, Outcome};
use crate::store::{has_key, index_of, spec_create, spec_lookup, spec_reinforce, store_wf};
use crate::token::{has_mint, spec_issue, TokenView};

verus! {

/// The pathway after `n` uses with the same outcome, all at time `now`.
pub open spec fn reinforced_times(p: NeuralPathway, outcome: Outcome, n: nat, now: i64) -> NeuralPathway
    decreases n,
{
    if n == 0 {
        p
    } else {
        reinforced_times(p, outcome, (n - 1) as nat, now).spec_reinforced(outcome, now)
    }
}

/// Creating a pathway between two distinct agents and then asking for it
/// again fails the second time with `PathwayAlreadyExists`, and leaves the
/// first call's record as it was.
pub proof fn lemma_create_twice(
    ps: Seq<NeuralPathway>,
    a: Pubkey,
    b: Pubkey,
    eligible: bool,
    eligible_again: bool,
    now: i64,
    now_again: i64,
)
    requires
        a@ != b@,
        spec_create(ps, a, b, eligible, now).0 is Ok,
    ensures
        ({
            let (r, ps1) = spec_create(ps, a, b, eligible, now);
            &&& spec_create(ps1, a, b, eligible_again, now_again) == (Err::<
                NeuralPathway,
                NeuralPathwayError,
            >(NeuralPathwayError::PathwayAlreadyExists), ps1)
            &&& ps1.last() == r->Ok_0
        }),
{
    let ps1 = spec_create(ps, a, b, eligible, now).1;
    assert(ps1[ps.len() as int].key() == (a@, b@));
}

/// A pathway from an agent to itself is always refused with `InvalidAgent`,
/// and no record is made.
pub proof fn lemma_create_self(ps: Seq<NeuralPathway>, a: Pubkey, eligible: bool, now: i64)
    ensures
        spec_create(ps, a, a, eligible, now) == (Err::<NeuralPathway, NeuralPathwayError>(
            NeuralPathwayError::InvalidAgent,
        ), ps),
{
}

/// A success raises the strength `s` of an existing pathway to
/// `min(255, s + 1)`; `n` successes in a row raise it to `min(255, s + n)`.
pub proof fn lemma_success_saturates(ps: Seq<NeuralPathway>, k: (Seq<u8>, Seq<u8>), now: i64, n: nat)
    requires
        has_key(ps, k),
    ensures
        ({
            let s = ps[index_of(ps, k)].strength as int;
            let r = spec_reinforce(ps, k, Outcome::Success, now).0;
            &&& r is Ok
            &&& r->Ok_0.strength as int == if s + 1 > 255 { 255 } else { s + 1 }
            &&& reinforced_times(ps[index_of(ps, k)], Outcome::Success, n, now).strength as int == if s
                + n > 255 {
                255
            } else {
                s + n
            }
        }),
{
    lemma_success_times(ps[index_of(ps, k)], now, n);
}

/// `n` successes in a row take the strength `s` to `min(255, s + n)`.
pub proof fn lemma_success_times(p: NeuralPathway, now: i64, n: nat)
    ensures
        reinforced_times(p, Outcome::Success, n, now).strength as int == if p.strength + n > 255 {
            255
        } else {
            p.strength + n
        },
    decreases n,
{
    if n > 0 {
        lemma_success_times(p, now, (n - 1) as nat);
    }
}

/// A failure lowers the strength `s` of an existing pathway to
/// `max(0, s - 1)`; `n` failures in a row lower it to `max(0, s - n)`, and it
/// never wraps round to 255.
pub proof fn lemma_failure_saturates(ps: Seq<NeuralPathway>, k: (Seq<u8>, Seq<u8>), now: i64, n: nat)
    requires
        has_key(ps, k),
    ensures
        ({
            let s = ps[index_of(ps, k)].strength as int;
            let r = spec_reinforce(ps, k, Outcome::Failure, now).0;
            &&& r is Ok
            &&& r->Ok_0.strength as int == if s - 1 < 0 { 0 } else { s - 1 }
            &&& reinforced_times(ps[index_of(ps, k)], Outcome::Failure, n, now).strength as int == if s
                - n < 0 {
                0
            } else {
                s - n
            }
        }),
{
    lemma_failure_times(ps[index_of(ps, k)], now, n);
}

/// `n` failures in a row take the strength `s` to `max(0, s - n)`.
pub proof fn lemma_failure_times(p: NeuralPathway, now: i64, n: nat)
    ensures
        reinforced_times(p, Outcome::Failure, n, now).strength as int == if p.strength - n < 0 {
            0
        } else {
            p.strength - n
        },
    decreases n,
{
    if n > 0 {
        lemma_failure_times(p, now, (n - 1) as nat);
    }
}

/// Reinforce never changes a pathway's `created_at`, and, where the time it
/// is given is no earlier than the pathway's `last_used`, it does not move
/// `last_used` back: it becomes that time.
pub proof fn lemma_reinforce_timestamps(
    ps: Seq<NeuralPathway>,
    k: (Seq<u8>, Seq<u8>),
    outcome: Outcome,
    now: i64,
)
    requires
        has_key(ps, k) ==> now >= ps[index_of(ps, k)].last_used,
    ensures
        ({
            let ps1 = spec_reinforce(ps, k, outcome, now).1;
            &&& ps1.len() == ps.len()
            &&& forall|i: int| 0 <= i < ps.len() ==> #[trigger] ps1[i].created_at == ps[i].created_at
            &&& forall|i: int| 0 <= i < ps.len() ==> #[trigger] ps1[i].last_used >= ps[i].last_used
            &&& has_key(ps, k) ==> ps1[index_of(ps, k)].last_used == now
        }),
{
}

/// Create leaves every existing pathway as it was, `created_at` included.
pub proof fn lemma_create_keeps_records(
    ps: Seq<NeuralPathway>,
    a: Pubkey,
    b: Pubkey,
    eligible: bool,
    now: i64,
)
    ensures
        ({
            let ps1 = spec_create(ps, a, b, eligible, now).1;
            &&& ps1.len() >= ps.len()
            &&& forall|i: int| 0 <= i < ps.len() ==> #[trigger] ps1[i] == ps[i]
        }),
{
}

/// A token issued for an existing pathway holds the strength the pathway has
/// then; a later use of the pathway changes the pathway alone, and the issued
/// record keeps the old strength.
pub proof fn lemma_issue_snapshot(
    ts: Seq<TokenView>,
    ps: Seq<NeuralPathway>,
    k: (Seq<u8>, Seq<u8>),
    mint: Seq<u8>,
    owner: Seq<u8>,
    uri: Seq<char>,
    now: i64,
    outcome: Outcome,
    later: i64,
)
    requires
        store_wf(ps),
        has_key(ps, k),
        !has_mint(ts, mint),
    ensures
        ({
            let p = spec_lookup(ps, k)->Some_0;
            let (r, ts1) = spec_issue(ts, ps, k, mint, owner, uri, now);
            let (q, ps1) = spec_reinforce(ps, k, outcome, later);
            &&& r is Ok
            &&& r->Ok_0.strength == p.strength
            &&& ts1.last() == r->Ok_0
            &&& q is Ok
            &&& spec_lookup(ps1, k) == Some(q->Ok_0)
            &&& q->Ok_0.strength == if outcome == Outcome::Success {
                strength_up(p.strength)
            } else {
                strength_down(p.strength)
            }
            &&& ts1.last().strength == p.strength
        }),
{
    let i = index_of(ps, k);
    let ps1 = spec_reinforce(ps, k, outcome, later).1;
    assert(ps1[i].key() == k);
    let j = index_of(ps1, k);
    assert(ps1[j].key() == ps[j].key());
}

/// Issue for a pathway that does not exist fails with `InvalidAgent` and
/// records no token.
pub proof fn lemma_issue_unknown_pathway(
    ts: Seq<TokenView>,
    ps: Seq<NeuralPathway>,
    k: (Seq<u8>, Seq<u8>),
    mint: Seq<u8>,
    owner: Seq<u8>,
    uri: Seq<char>,
    now: i64,
)
    requires
        !has_key(ps, k),
    ensures
        spec_issue(ts, ps, k, mint, owner, uri, now) == (Err::<TokenView, NeuralPathwayError>(
            NeuralPathwayError::InvalidAgent,
        ), ts),
{
}

/// A second Issue of a mint that was just issued fails with
/// `PathwayAlreadyExists`, and the registry keeps the first record alone.
pub proof fn lemma_issue_twice(
    ts: Seq<TokenView>,
    ps: Seq<NeuralPathway>,
    k: (Seq<u8>, Seq<u8>),
    k_again: (Seq<u8>, Seq<u8>),
    mint: Seq<u8>,
    owner: Seq<u8>,
    owner_again: Seq<u8>,
    uri: Seq<char>,
    uri_again: Seq<char>,
    now: i64,
    now_again: i64,
)
    requires
        spec_issue(ts, ps, k, mint, owner, uri, now).0 is Ok,
    ensures
        ({
            let (r, ts1) = spec_issue(ts, ps, k, mint, owner, uri, now);
            let (r2, ts2) = spec_issue(ts1, ps, k_again, mint, owner_again, uri_again, now_again);
            &&& ts1 == ts.push(r->Ok_0)
            &&& has_key(ps, k_again) ==> r2 == Err::<TokenView, NeuralPathwayError>(
                NeuralPathwayError::PathwayAlreadyExists,
            )
            &&& r2 is Err
            &&& ts2 == ts1
        }),
{
    let ts1 = spec_issue(ts, ps, k, mint, owner, uri, now).1;
    assert(ts1[ts.len() as int].mint == mint);
}

} // verus!
