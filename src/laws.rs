use vstd::prelude::*;

use crate::engine::{
    badges_of, claim_outcome, claimed, mint_gate, owned_or_zero, remaining_of, BADGES_FOR_COMPLETION,
};
use crate::types::{Error, Profile};

verus! {

/// An account without a profile has no blocks left to wait and no badges, at every height.
pub proof fn lemma_no_profile_reads_zero(now: u32)
    ensures
        remaining_of(None, now) == 0,
        badges_of(None) == 0,
{
}

/// After a start with era `era` at height `start`, the blocks left equal `era` at once, drop by
/// exactly one per block until they reach zero, reach zero exactly once `now - start >= era`,
/// and never go below zero.
pub proof fn lemma_remaining_counts_down(era: u8, start: u32, now: u32)
    requires
        start <= now < u32::MAX,
    ensures
        ({
            let p = Some(Profile { claim_era: era, start_block: start, badges_claimed: 0 });
            &&& remaining_of(p, start) == era
            &&& remaining_of(p, (now + 1) as u32) == if remaining_of(p, now) > 0 {
                remaining_of(p, now) - 1
            } else {
                0
            }
            &&& (remaining_of(p, now) == 0 <==> now - start >= era)
            &&& 0 <= remaining_of(p, now) <= era
        }),
{
}

/// A claim while blocks remain fails with `TooEarlyToClaim` (and so changes nothing).
pub proof fn lemma_early_claim_refused(p: Option<Profile>, now: u32)
    requires
        remaining_of(p, now) != 0,
    ensures
        claim_outcome(p, now) == Err::<Profile, Error>(Error::TooEarlyToClaim),
{
}

/// A claim once no blocks remain succeeds: one more badge, an era restarted at the current
/// height, after which the blocks left are the full era again.
pub proof fn lemma_claim_restarts_era(p: Profile, now: u32)
    requires
        p.start_block <= now,
        remaining_of(Some(p), now) == 0,
        p.badges_claimed < u8::MAX,
    ensures
        claim_outcome(Some(p), now) == Ok::<Profile, Error>(claimed(p, now)),
        claimed(p, now).badges_claimed == p.badges_claimed + 1,
        claimed(p, now).start_block == now,
        claimed(p, now).claim_era == p.claim_era,
        remaining_of(Some(claimed(p, now)), now) == p.claim_era,
{
}

/// A claim by an account that never started fails with `UserNotFound`.
pub proof fn lemma_claim_without_profile(now: u32)
    ensures
        claim_outcome(None, now) == Err::<Profile, Error>(Error::UserNotFound),
{
}

/// A mint with fewer than nine badges fails with `LessonsNotCompleted` before the issuer is
/// consulted, whatever the issuer's count.
pub proof fn lemma_mint_needs_badges(p: Option<Profile>, nfts_owned: Option<u32>, now: u32)
    requires
        badges_of(p) < BADGES_FOR_COMPLETION,
    ensures
        mint_gate(p, nfts_owned, now) == Err::<Profile, Error>(Error::LessonsNotCompleted),
{
}

/// A mint with enough badges by an account that already holds a token fails with
/// `AlreadyClaimedCompletionBadge`.
pub proof fn lemma_mint_once(p: Option<Profile>, nfts_owned: Option<u32>, now: u32)
    requires
        badges_of(p) >= BADGES_FOR_COMPLETION,
        owned_or_zero(nfts_owned) != 0,
    ensures
        mint_gate(p, nfts_owned, now) == Err::<Profile, Error>(Error::AlreadyClaimedCompletionBadge),
{
}

/// With enough badges, no token held and the era elapsed, the checks before the issuer call
/// pass and the stored profile would carry exactly one more badge.
pub proof fn lemma_mint_gate_passes(p: Profile, nfts_owned: Option<u32>, now: u32)
    requires
        p.start_block <= now,
        p.badges_claimed >= BADGES_FOR_COMPLETION,
        p.badges_claimed < u8::MAX,
        owned_or_zero(nfts_owned) == 0,
        remaining_of(Some(p), now) == 0,
    ensures
        mint_gate(Some(p), nfts_owned, now) == Ok::<Profile, Error>(claimed(p, now)),
        claimed(p, now).badges_claimed == p.badges_claimed + 1,
{
}

} // verus!
