//! Properties of the two instructions, stated over their outcomes.

use vstd::prelude::*;
use crate::address::profile_address_of;
use crate::ledger::{Ledger, LedgerView};
use crate::program::{register_outcome, validation_outcome, ReputationError};
use crate::records::{name_fits, ServiceValidationView};

verus! {

/// A signed registration with a name that fits succeeds exactly when the
/// owner's address can be derived and is free, and then the new profile has
/// score 100 and no successful transactions.
pub proof fn lemma_registration_starts_fresh(l: LedgerView, signer: Seq<u8>, name: Seq<char>)
    requires
        name_fits(name),
    ensures
        ({
            let (r, next) = register_outcome(l, signer, true, name);
            &&& r is Ok <==> (profile_address_of(signer, l.program) matches Some(a)
                && !l.profiles.contains_key(a))
            &&& r is Ok ==> (profile_address_of(signer, l.program) matches Some(a)
                && next.profiles[a].reputation_score == 100
                && next.profiles[a].total_successful_txs == 0 && next.profiles[a].owner == signer
                && next.profiles[a].name == name)
        }),
{
}

/// A second signed registration of the same owner fails with
/// `DuplicateRegistration`, whatever the name, and leaves the profile that the
/// first one created as it was.
pub proof fn lemma_second_registration_fails(
    l: LedgerView,
    signer: Seq<u8>,
    first_name: Seq<char>,
    second_name: Seq<char>,
)
    requires
        register_outcome(l, signer, true, first_name).0 is Ok,
    ensures
        ({
            let after_first = register_outcome(l, signer, true, first_name).1;
            let (r, after_second) = register_outcome(after_first, signer, true, second_name);
            r == Err::<(), ReputationError>(ReputationError::DuplicateRegistration)
                && after_second == after_first
        }),
{
}

/// A successful outcome raises the seller's score to `min(s + 1, 65535)` and
/// counts one more successful transaction.
pub proof fn lemma_success_raises_score(l: LedgerView, buyer: Seq<u8>, seller: Seq<u8>, t: i64)
    requires
        l.profiles.contains_key(seller),
        l.profiles[seller].total_successful_txs < u32::MAX,
    ensures
        ({
            let s = l.profiles[seller].reputation_score as int;
            let (r, next) = validation_outcome(l, buyer, true, seller, true, t);
            &&& r is Ok
            &&& next.profiles[seller].reputation_score as int == if s + 1 <= 65535 {
                s + 1
            } else {
                65535
            }
            &&& next.profiles[seller].total_successful_txs as int
                == l.profiles[seller].total_successful_txs as int + 1
        }),
{
}

/// A failed outcome lowers the seller's score to `max(s - 5, 0)` and leaves the
/// count of successful transactions unchanged.
pub proof fn lemma_failure_lowers_score(l: LedgerView, buyer: Seq<u8>, seller: Seq<u8>, t: i64)
    requires
        l.profiles.contains_key(seller),
    ensures
        ({
            let s = l.profiles[seller].reputation_score as int;
            let (r, next) = validation_outcome(l, buyer, true, seller, false, t);
            &&& r is Ok
            &&& next.profiles[seller].reputation_score as int == if s - 5 >= 0 {
                s - 5
            } else {
                0
            }
            &&& next.profiles[seller].total_successful_txs == l.profiles[seller].total_successful_txs
        }),
{
}

/// Every successful validation appends exactly one new record, stamped with
/// the commit time it was given, and leaves every earlier record as it was.
pub proof fn lemma_validation_appends_one_record(
    l: LedgerView,
    buyer: Seq<u8>,
    signed: bool,
    seller: Seq<u8>,
    success: bool,
    t: i64,
)
    ensures
        ({
            let (r, next) = validation_outcome(l, buyer, signed, seller, success, t);
            r is Ok ==> {
                &&& next.validations.len() == l.validations.len() + 1
                &&& next.validations.subrange(0, l.validations.len() as int) == l.validations
                &&& next.validations.last() == (ServiceValidationView {
                    buyer,
                    seller,
                    success,
                    timestamp: t,
                })
            }
        }),
{
    let (r, next) = validation_outcome(l, buyer, signed, seller, success, t);
    if r is Ok {
        assert(next.validations.subrange(0, l.validations.len() as int) =~= l.validations);
    }
}

/// An aborted registration or validation leaves every record unchanged.
pub proof fn lemma_abort_changes_nothing(
    l: LedgerView,
    caller: Seq<u8>,
    signed: bool,
    name: Seq<char>,
    seller: Seq<u8>,
    success: bool,
    t: i64,
)
    ensures
        register_outcome(l, caller, signed, name).0 is Err ==> register_outcome(
            l,
            caller,
            signed,
            name,
        ).1 == l,
        validation_outcome(l, caller, signed, seller, success, t).0 is Err ==> validation_outcome(
            l,
            caller,
            signed,
            seller,
            success,
            t,
        ).1 == l,
{
}

/// No owner has two profiles.
pub proof fn lemma_one_profile_per_owner(ledger: &Ledger, a: Seq<u8>, b: Seq<u8>)
    requires
        ledger.wf(),
        ledger@.profiles.contains_key(a),
        ledger@.profiles.contains_key(b),
        ledger@.profiles[a].owner == ledger@.profiles[b].owner,
    ensures
        a == b,
{
}

} // verus!
