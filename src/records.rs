//! The two record kinds of the ledger and the score arithmetic.

use vstd::prelude::*;
use vstd::utf8::encode_utf8;
use crate::address::Address;

verus! {

/// Score that every freshly registered agent starts with.
pub const INITIAL_REPUTATION: u16 = 100;

/// Largest name, in bytes of its UTF-8 encoding.
pub const MAX_NAME_LEN: usize = 50;

/// Score gained for a successful interaction.
pub const SUCCESS_REWARD: u16 = 1;

/// Score lost for a failed interaction.
pub const FAILURE_PENALTY: u16 = 5;

/// One registered agent identity.
pub struct AgentProfile {
    pub owner: Address,
    pub name: String,
    pub reputation_score: u16,
    pub total_successful_txs: u32,
}

/// The mathematical content of an [`AgentProfile`].
pub struct AgentProfileView {
    pub owner: Seq<u8>,
    pub name: Seq<char>,
    pub reputation_score: u16,
    pub total_successful_txs: u32,
}

impl View for AgentProfile {
    type V = AgentProfileView;

    open spec fn view(&self) -> AgentProfileView {
        AgentProfileView {
            owner: self.owner@,
            name: self.name@,
            reputation_score: self.reputation_score,
            total_successful_txs: self.total_successful_txs,
        }
    }
}

/// One immutable record of a service interaction's outcome.
#[derive(Clone, Copy, Debug)]
pub struct ServiceValidation {
    pub buyer: Address,
    pub seller: Address,
    pub success: bool,
    pub timestamp: i64,
}

/// The mathematical content of a [`ServiceValidation`].
pub struct ServiceValidationView {
    pub buyer: Seq<u8>,
    pub seller: Seq<u8>,
    pub success: bool,
    pub timestamp: i64,
}

impl View for ServiceValidation {
    type V = ServiceValidationView;

    open spec fn view(&self) -> ServiceValidationView {
        ServiceValidationView {
            buyer: self.buyer@,
            seller: self.seller@,
            success: self.success,
            timestamp: self.timestamp,
        }
    }
}

/// A name fits when its UTF-8 encoding takes at most `MAX_NAME_LEN` bytes.
pub open spec fn name_fits(name: Seq<char>) -> bool {
    encode_utf8(name).len() <= MAX_NAME_LEN
}

/// The profile that registration creates.
pub open spec fn fresh_profile(owner: Seq<u8>, name: Seq<char>) -> AgentProfileView {
    AgentProfileView {
        owner,
        name,
        reputation_score: INITIAL_REPUTATION,
        total_successful_txs: 0,
    }
}

/// `min(s + 1, u16::MAX)`.
pub open spec fn raised_score(s: u16) -> u16 {
    if s as int + SUCCESS_REWARD as int > u16::MAX as int {
        u16::MAX
    } else {
        (s + SUCCESS_REWARD) as u16
    }
}

/// `max(s - 5, 0)`.
pub open spec fn lowered_score(s: u16) -> u16 {
    if s < FAILURE_PENALTY {
        0
    } else {
        (s - FAILURE_PENALTY) as u16
    }
}

/// `min(n + 1, u32::MAX)`.
pub open spec fn counted(n: u32) -> u32 {
    if n == u32::MAX {
        u32::MAX
    } else {
        (n + 1) as u32
    }
}

/// A profile after one interaction's outcome has been applied to it.
pub open spec fn scored(p: AgentProfileView, success: bool) -> AgentProfileView {
    if success {
        AgentProfileView {
            reputation_score: raised_score(p.reputation_score),
            total_successful_txs: counted(p.total_successful_txs),
            ..p
        }
    } else {
        AgentProfileView { reputation_score: lowered_score(p.reputation_score), ..p }
    }
}

impl AgentProfile {
    /// A new profile with the initial score and no successful transactions.
    pub fn new(owner: Address, name: String) -> (r: AgentProfile)
        ensures
            r@ == fresh_profile(owner@, name@),
    {
        AgentProfile {
            owner,
            name,
            reputation_score: INITIAL_REPUTATION,
            total_successful_txs: 0,
        }
    }

    /// Applies one outcome: success raises the score by one and counts the
    /// transaction, failure lowers the score by five; both saturate.
    pub fn apply_outcome(&mut self, success: bool)
        ensures
            final(self)@ == scored(old(self)@, success),
    {
        if success {
            self.reputation_score = self.reputation_score.saturating_add(SUCCESS_REWARD);
            self.total_successful_txs = self.total_successful_txs.saturating_add(1);
        } else {
            self.reputation_score = self.reputation_score.saturating_sub(FAILURE_PENALTY);
        }
    }
}

/// Whether `name` fits the profile's name field.
pub fn check_name(name: &String) -> (r: bool)
    ensures
        r == name_fits(name@),
{
    name.as_str().as_bytes().len() <= MAX_NAME_LEN
}

} // verus!
