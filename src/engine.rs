use vstd::prelude::*;

use crate::types::{AccountId, BadgeClaimed, EraStarted, Error, NFTClaimed, Profile};

verus! {

/// Number of badges an account needs before it may mint its completion token.
pub const BADGES_FOR_COMPLETION: u8 = 9;

/// Blocks left in the era of `p` at height `now`; an account without a profile has none left.
pub open spec fn remaining_of(p: Option<Profile>, now: u32) -> int {
    match p {
        None => 0,
        Some(p) => if now - p.start_block >= p.claim_era {
            0
        } else {
            p.claim_era - (now - p.start_block)
        },
    }
}

/// Badges of the account whose profile is `p`; an account without a profile has none.
pub open spec fn badges_of(p: Option<Profile>) -> int {
    match p {
        None => 0,
        Some(p) => p.badges_claimed as int,
    }
}

/// The profile that a claim at height `now` leaves behind: one more badge and a fresh era.
pub open spec fn claimed(p: Profile, now: u32) -> Profile {
    Profile { claim_era: p.claim_era, start_block: now, badges_claimed: (p.badges_claimed + 1) as u8 }
}

/// What a claim at height `now` does to the account whose profile is `p`.
pub open spec fn claim_outcome(p: Option<Profile>, now: u32) -> Result<Profile, Error> {
    if remaining_of(p, now) != 0 {
        Err(Error::TooEarlyToClaim)
    } else {
        match p {
            None => Err(Error::UserNotFound),
            Some(p) => Ok(claimed(p, now)),
        }
    }
}

/// The issuer's token count for an account, where a failed lookup counts as none.
pub open spec fn owned_or_zero(nfts_owned: Option<u32>) -> u32 {
    match nfts_owned {
        Some(n) => n,
        None => 0,
    }
}

/// What the checks of a mint at height `now` decide, before the issuer is called: the error,
/// or the profile that the inner claim leaves behind.
pub open spec fn mint_gate(p: Option<Profile>, nfts_owned: Option<u32>, now: u32) -> Result<Profile, Error> {
    if badges_of(p) < BADGES_FOR_COMPLETION {
        Err(Error::LessonsNotCompleted)
    } else if owned_or_zero(nfts_owned) != 0 {
        Err(Error::AlreadyClaimedCompletionBadge)
    } else {
        claim_outcome(p, now)
    }
}

/// One stored record: an account and its profile.
#[derive(Clone, Copy)]
struct Entry {
    account: AccountId,
    profile: Profile,
}

/// `user` holds each account once and agrees with `users`, and no era starts after `now`.
closed spec fn store_ok(user: Seq<Entry>, users: Map<Seq<u8>, Profile>, now: u32) -> bool {
    &&& forall|i: int, j: int| 0 <= i < j < user.len() ==> user[i].account@ != user[j].account@
    &&& forall|i: int|
        0 <= i < user.len() ==> #[trigger] users.contains_key(user[i].account@) && users[user[i].account@]
            == user[i].profile
    &&& forall|k: Seq<u8>|
        #[trigger] users.contains_key(k) ==> exists|i: int| 0 <= i < user.len() && #[trigger] user[i].account@ == k
    &&& forall|k: Seq<u8>| #[trigger] users.contains_key(k) ==> users[k].start_block <= now
}

/// The claim engine: the profiles of all accounts, the account of the reward issuer, and the
/// context of the current call (its caller and the block height).
pub struct Magink {
    user: Vec<Entry>,
    users: Ghost<Map<Seq<u8>, Profile>>,
    wizard_contract: AccountId,
    caller: AccountId,
    block_number: u32,
}

impl Magink {
    /// The stored records agree with the profile map, hold each account once, and no era
    /// starts after the current height.
    pub closed spec fn wf(&self) -> bool {
        store_ok(self.user@, self.users@, self.block_number)
    }

    /// The profile of every account that has one.
    pub closed spec fn profiles(&self) -> Map<Seq<u8>, Profile> {
        self.users@
    }

    /// The current block height.
    pub closed spec fn height(&self) -> u32 {
        self.block_number
    }

    /// The account that makes the current call.
    pub closed spec fn current_caller(&self) -> Seq<u8> {
        self.caller@
    }

    /// The account of the reward issuer.
    pub closed spec fn issuer(&self) -> Seq<u8> {
        self.wizard_contract@
    }

    /// The profile of `account`, if it has one.
    pub open spec fn profile_of(&self, account: Seq<u8>) -> Option<Profile> {
        if self.profiles().contains_key(account) {
            Some(self.profiles()[account])
        } else {
            None
        }
    }

    /// The profile of the current caller, if it has one.
    pub open spec fn caller_profile(&self) -> Option<Profile> {
        self.profile_of(self.current_caller())
    }

    /// Nothing but the profile map changed between `self` and `other`.
    pub open spec fn same_context(&self, other: &Magink) -> bool {
        &&& other.height() == self.height()
        &&& other.current_caller() == self.current_caller()
        &&& other.issuer() == self.issuer()
    }

    /// Creates an engine with no profiles that rewards through the issuer at `wizard_account`.
    /// The call context starts at height 0, with the all-zero account as caller.
    pub fn new(wizard_account: AccountId) -> (r: Magink)
        ensures
            r.wf(),
            r.profiles() == Map::<Seq<u8>, Profile>::empty(),
            r.issuer() == wizard_account@,
            r.height() == 0,
            r.current_caller() == Seq::new(32, |i: int| 0u8),
    {
        let caller = AccountId { bytes: [0u8; 32] };
        assert(caller@ =~= Seq::new(32, |i: int| 0u8));
        Magink {
            user: Vec::new(),
            users: Ghost(Map::empty()),
            wizard_contract: wizard_account,
            caller,
            block_number: 0,
        }
    }

    /// The account of the reward issuer.
    pub fn wizard_contract(&self) -> (r: AccountId)
        ensures
            r@ == self.issuer(),
    {
        self.wizard_contract
    }

    /// The account that makes the current call.
    pub fn caller(&self) -> (r: AccountId)
        ensures
            r@ == self.current_caller(),
    {
        self.caller
    }

    /// The current block height.
    pub fn block_number(&self) -> (r: u32)
        ensures
            r == self.height(),
    {
        self.block_number
    }

    /// Makes `account` the caller of the calls that follow.
    pub fn set_caller(&mut self, account: AccountId)
        requires
            old(self).wf(),
        ensures
            final(self).wf(),
            final(self).current_caller() == account@,
            final(self).height() == old(self).height(),
            final(self).issuer() == old(self).issuer(),
            final(self).profiles() == old(self).profiles(),
    {
        self.caller = account;
    }

    /// Moves the block height on by one.
    pub fn advance_block(&mut self)
        requires
            old(self).wf(),
            old(self).height() < u32::MAX,
        ensures
            final(self).wf(),
            final(self).height() == old(self).height() + 1,
            final(self).current_caller() == old(self).current_caller(),
            final(self).issuer() == old(self).issuer(),
            final(self).profiles() == old(self).profiles(),
    {
        self.block_number = self.block_number + 1;
        assert(store_ok(self.user@, self.users@, self.block_number));
    }

    /// Index of the record of `account`, if it has one.
    fn find(&self, account: &AccountId) -> (r: Option<usize>)
        requires
            self.wf(),
        ensures
            match r {
                Some(i) => i < self.user@.len() && self.user@[i as int].account@ == account@,
                None => !self.users@.contains_key(account@),
            },
    {
        let mut i: usize = 0;
        while i < self.user.len()
            invariant
                0 <= i <= self.user@.len(),
                self.wf(),
                forall|j: int| 0 <= j < i ==> self.user@[j].account@ != account@,
            decreases self.user@.len() - i,
        {
            if self.user[i].account.same_as(account) {
                return Some(i);
            }
            i = i + 1;
        }
        None
    }

    /// Stores `profile` as the profile of `account`.
    fn put(&mut self, account: AccountId, profile: Profile)
        requires
            old(self).wf(),
            profile.start_block <= old(self).block_number,
        ensures
            final(self).wf(),
            final(self).profiles() == old(self).profiles().insert(account@, profile),
            old(self).same_context(&*final(self)),
    {
        let ghost old_user = self.user@;
        let ghost old_users = self.users@;
        let entry = Entry { account, profile };
        match self.find(&account) {
            Some(i) => {
                self.user.set(i, entry);
                self.users = Ghost(self.users@.insert(account@, profile));
                assert forall|k: Seq<u8>| #[trigger] self.users@.contains_key(k) implies exists|j: int|
                    0 <= j < self.user@.len() && #[trigger] self.user@[j].account@ == k by {
                    if k != account@ {
                        let j = choose|j: int| 0 <= j < old_user.len() && #[trigger] old_user[j].account@ == k;
                        assert(self.user@[j].account@ == k);
                    } else {
                        assert(self.user@[i as int].account@ == k);
                    }
                }
            },
            None => {
                self.user.push(entry);
                self.users = Ghost(self.users@.insert(account@, profile));
                assert forall|k: Seq<u8>| #[trigger] self.users@.contains_key(k) implies exists|j: int|
                    0 <= j < self.user@.len() && #[trigger] self.user@[j].account@ == k by {
                    if k != account@ {
                        let j = choose|j: int| 0 <= j < old_user.len() && #[trigger] old_user[j].account@ == k;
                        assert(self.user@[j].account@ == k);
                    } else {
                        assert(self.user@[old_user.len() as int].account@ == k);
                    }
                }
                assert forall|a: int, b: int| 0 <= a < b < self.user@.len() implies self.user@[a].account@
                    != self.user@[b].account@ by {
                    if b == old_user.len() {
                        assert(old_users.contains_key(old_user[a].account@));
                    }
                }
            },
        }
    }

    /// The profile of `account`, if it has one.
    pub fn get_account_profile(&self, account: AccountId) -> (r: Option<Profile>)
        requires
            self.wf(),
        ensures
            r == self.profile_of(account@),
    {
        match self.find(&account) {
            Some(i) => Some(self.user[i].profile),
            None => None,
        }
    }

    /// The profile of the caller, if it has one.
    pub fn get_profile(&self) -> (r: Option<Profile>)
        requires
            self.wf(),
        ensures
            r == self.caller_profile(),
    {
        self.get_account_profile(self.caller)
    }

    /// Badges claimed by `account`; none for an account without a profile.
    pub fn get_badges_for(&self, account: AccountId) -> (r: u8)
        requires
            self.wf(),
        ensures
            r as int == badges_of(self.profile_of(account@)),
    {
        match self.get_account_profile(account) {
            Some(profile) => profile.badges_claimed,
            None => 0,
        }
    }

    /// Badges claimed by the caller; none for a caller without a profile.
    pub fn get_badges(&self) -> (r: u8)
        requires
            self.wf(),
        ensures
            r as int == badges_of(self.caller_profile()),
    {
        self.get_badges_for(self.caller)
    }

    /// Blocks left in the era of `account` at the current height; none for an account without
    /// a profile.
    pub fn get_remaining_for(&self, account: AccountId) -> (r: u8)
        requires
            self.wf(),
        ensures
            r as int == remaining_of(self.profile_of(account@), self.height()),
    {
        match self.get_account_profile(account) {
            Some(profile) => {
                assert(self.users@.contains_key(account@));
                let elapsed: u32 = self.block_number - profile.start_block;
                if elapsed >= profile.claim_era as u32 {
                    0
                } else {
                    profile.claim_era - elapsed as u8
                }
            },
            None => 0,
        }
    }

    /// Blocks left in the caller's era at the current height; none for a caller without a
    /// profile.
    pub fn get_remaining(&self) -> (r: u8)
        requires
            self.wf(),
        ensures
            r as int == remaining_of(self.caller_profile(), self.height()),
    {
        self.get_remaining_for(self.caller)
    }

    /// Starts the caller afresh: an era of `era` blocks from the current height, with no badges.
    pub fn start(&mut self, era: u8) -> (r: EraStarted)
        requires
            old(self).wf(),
        ensures
            final(self).wf(),
            old(self).same_context(&*final(self)),
            final(self).profiles() == old(self).profiles().insert(
                old(self).current_caller(),
                Profile { claim_era: era, start_block: old(self).height(), badges_claimed: 0 },
            ),
            r.account@ == old(self).current_caller(),
            r.era == era,
            r.start_block == old(self).height(),
    {
        let profile = Profile { claim_era: era, start_block: self.block_number, badges_claimed: 0 };
        let caller = self.caller;
        self.put(caller, profile);
        EraStarted { account: caller, era, start_block: self.block_number }
    }

    /// What a claim by the caller would store, without storing it.
    fn claim_decision(&self) -> (r: Result<Profile, Error>)
        requires
            self.wf(),
            badges_of(self.caller_profile()) < u8::MAX,
        ensures
            r == claim_outcome(self.caller_profile(), self.height()),
            r matches Ok(p) ==> p.start_block == self.height(),
    {
        if self.get_remaining() != 0 {
            return Err(Error::TooEarlyToClaim);
        }
        match self.get_profile() {
            Some(profile) => Ok(
                Profile {
                    claim_era: profile.claim_era,
                    start_block: self.block_number,
                    badges_claimed: profile.badges_claimed + 1,
                },
            ),
            None => Err(Error::UserNotFound),
        }
    }

    /// Claims a badge for the caller once its era has elapsed, and starts a fresh era of the
    /// same length. Fails with `TooEarlyToClaim` while blocks remain, and with `UserNotFound`
    /// for a caller without a profile; a failed claim changes nothing.
    pub fn claim(&mut self) -> (r: Result<BadgeClaimed, Error>)
        requires
            old(self).wf(),
            badges_of(old(self).caller_profile()) < u8::MAX,
        ensures
            final(self).wf(),
            old(self).same_context(&*final(self)),
            match claim_outcome(old(self).caller_profile(), old(self).height()) {
                Err(e) => r == Err::<BadgeClaimed, Error>(e) && final(self).profiles() == old(self).profiles(),
                Ok(p) => r matches Ok(ev) && ev.account@ == old(self).current_caller()
                    && ev.claim_block == old(self).height() && final(self).profiles() == old(self).profiles().insert(old(self).current_caller(), p),
            },
    {
        match self.claim_decision() {
            Ok(profile) => {
                let caller = self.caller;
                self.put(caller, profile);
                Ok(BadgeClaimed { account: caller, claim_block: self.block_number })
            },
            Err(e) => Err(e),
        }
    }

    /// The first check of a mint, made before the issuer is consulted at all: the caller must
    /// hold at least nine badges, else `LessonsNotCompleted`.
    pub fn check_lessons_completed(&self) -> (r: Result<(), Error>)
        requires
            self.wf(),
        ensures
            badges_of(self.caller_profile()) < BADGES_FOR_COMPLETION ==> r == Err::<(), Error>(
                Error::LessonsNotCompleted,
            ),
            badges_of(self.caller_profile()) >= BADGES_FOR_COMPLETION ==> r == Ok::<(), Error>(()),
    {
        if self.get_badges() < BADGES_FOR_COMPLETION {
            Err(Error::LessonsNotCompleted)
        } else {
            Ok(())
        }
    }

    /// What a mint by the caller decides before the issuer is called, given the issuer's token
    /// count for the caller (`None` where that lookup failed, which counts as none). The issuer
    /// is to be called only on `Ok`.
    pub fn check_mint_wizard(&self, nfts_owned: Option<u32>) -> (r: Result<(), Error>)
        requires
            self.wf(),
            badges_of(self.caller_profile()) < u8::MAX,
        ensures
            match mint_gate(self.caller_profile(), nfts_owned, self.height()) {
                Err(e) => r == Err::<(), Error>(e),
                Ok(_) => r == Ok::<(), Error>(()),
            },
    {
        match self.mint_decision(nfts_owned) {
            Ok(_) => Ok(()),
            Err(e) => Err(e),
        }
    }

    /// The profile that a mint by the caller stores if the issuer succeeds, or the error of the
    /// checks before the issuer call.
    fn mint_decision(&self, nfts_owned: Option<u32>) -> (r: Result<Profile, Error>)
        requires
            self.wf(),
            badges_of(self.caller_profile()) < u8::MAX,
        ensures
            r == mint_gate(self.caller_profile(), nfts_owned, self.height()),
            r matches Ok(p) ==> p.start_block == self.height(),
    {
        if self.get_badges() < BADGES_FOR_COMPLETION {
            return Err(Error::LessonsNotCompleted);
        }
        let owned: u32 = match nfts_owned {
            Some(n) => n,
            None => 0,
        };
        if owned != 0 {
            return Err(Error::AlreadyClaimedCompletionBadge);
        }
        self.claim_decision()
    }

    /// Mints the caller's completion token with `metadata`, as one atomic step. The checks come
    /// in order: at least nine badges (else `LessonsNotCompleted`), no token held yet (else
    /// `AlreadyClaimedCompletionBadge`; `nfts_owned` is the issuer's count, `None` where that
    /// lookup failed), then a claim. `issuer_minted` is the issuer's answer to the mint call
    /// that those checks allow; where it failed the result is `BadgeMintingFailed`. The claim's
    /// change is stored only on success: every failure leaves the profiles as they were.
    pub fn mint_wizard(&mut self, metadata: Vec<u8>, nfts_owned: Option<u32>, issuer_minted: bool) -> (r:
        Result<NFTClaimed, Error>)
        requires
            old(self).wf(),
            badges_of(old(self).caller_profile()) < u8::MAX,
        ensures
            final(self).wf(),
            old(self).same_context(&*final(self)),
            match mint_gate(old(self).caller_profile(), nfts_owned, old(self).height()) {
                Err(e) => r == Err::<NFTClaimed, Error>(e) && final(self).profiles() == old(self).profiles(),
                Ok(p) => if issuer_minted {
                    r matches Ok(ev) && ev.account@ == old(self).current_caller() && ev.cid@
                        == metadata@ && ev.mint_block == old(self).height()
                        && final(self).profiles() == old(self).profiles().insert(
                        old(self).current_caller(),
                        p,
                    )
                } else {
                    r == Err::<NFTClaimed, Error>(Error::BadgeMintingFailed) && final(self).profiles() == old(self).profiles()
                },
            },
    {
        match self.mint_decision(nfts_owned) {
            Err(e) => Err(e),
            Ok(profile) => {
                if issuer_minted {
                    let caller = self.caller;
                    self.put(caller, profile);
                    Ok(NFTClaimed { account: caller, cid: metadata, mint_block: self.block_number })
                } else {
                    Err(Error::BadgeMintingFailed)
                }
            },
        }
    }

    /// The issuer's total token supply, given its answer (`None` where that lookup failed,
    /// which counts as zero).
    pub fn get_total_wizard_supply(&self, supply: Option<u128>) -> (r: u128)
        ensures
            r == match supply {
                Some(v) => v,
                None => 0u128,
            },
    {
        match supply {
            Some(v) => v,
            None => 0,
        }
    }
}

} // verus!
