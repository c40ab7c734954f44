use vstd::prelude::*;

verus! {

/// The identity of an account: 32 opaque bytes.
#[derive(Clone, Copy, Debug)]
pub struct AccountId {
    pub bytes: [u8; 32],
}

impl View for AccountId {
    type V = Seq<u8>;

    open spec fn view(&self) -> Seq<u8> {
        self.bytes@
    }
}

impl AccountId {
    /// Compares two accounts byte by byte.
    pub fn same_as(&self, other: &AccountId) -> (r: bool)
        ensures
            r == (self@ == other@),
    {
        let mut i: usize = 0;
        while i < 32
            invariant
                0 <= i <= 32,
                forall|j: int| 0 <= j < i ==> self@[j] == other@[j],
            decreases 32 - i,
        {
            if self.bytes[i] != other.bytes[i] {
                return false;
            }
            i = i + 1;
        }
        assert(self@ =~= other@);
        true
    }
}

impl PartialEq for AccountId {
    fn eq(&self, other: &AccountId) -> (r: bool) {
        self.same_as(other)
    }
}

impl Eq for AccountId {
}

impl vstd::std_specs::cmp::PartialEqSpecImpl for AccountId {
    open spec fn obeys_eq_spec() -> bool {
        true
    }

    open spec fn eq_spec(&self, other: &AccountId) -> bool {
        self@ == other@
    }
}

impl From<[u8; 32]> for AccountId {
    fn from(bytes: [u8; 32]) -> (r: AccountId) {
        AccountId { bytes }
    }
}

impl vstd::std_specs::convert::FromSpecImpl<[u8; 32]> for AccountId {
    open spec fn obeys_from_spec() -> bool {
        true
    }

    open spec fn from_spec(bytes: [u8; 32]) -> AccountId {
        AccountId { bytes }
    }
}

/// The progress record of one account.
#[derive(Clone, Copy, Debug, PartialEq, Eq, Structural, PartialOrd, Ord)]
pub struct Profile {
    /// Number of block heights that must elapse between two claims.
    pub claim_era: u8,
    /// Block height at which the current era began.
    pub start_block: u32,
    /// Number of badges claimed since the last start.
    pub badges_claimed: u8,
}

/// The ways in which an operation of the engine can fail.
#[derive(Clone, Copy, Debug, PartialEq, Eq, Structural)]
pub enum Error {
    TooEarlyToClaim,
    UserNotFound,
    LessonsNotCompleted,
    BadgeMintingFailed,
    AlreadyClaimedCompletionBadge,
}

/// Notice that an account started a new era.
#[derive(Clone, Copy, Debug, PartialEq, Eq)]
pub struct EraStarted {
    pub account: AccountId,
    pub era: u8,
    pub start_block: u32,
}

/// Notice that an account claimed a badge.
#[derive(Clone, Copy, Debug, PartialEq, Eq)]
pub struct BadgeClaimed {
    pub account: AccountId,
    pub claim_block: u32,
}

/// Notice that an account received its completion token.
#[derive(Clone, Debug, PartialEq, Eq)]
pub struct NFTClaimed {
    pub account: AccountId,
    pub cid: Vec<u8>,
    pub mint_block: u32,
}

} // verus!
