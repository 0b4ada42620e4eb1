//! The two instructions: registering an agent and recording a validation.

use vstd::prelude::*;
use crate::address::{profile_address, profile_address_of, Address};
use crate::ledger::{Ledger, LedgerView};
use crate::records::{
    check_name, fresh_profile, name_fits, scored, AgentProfile, ServiceValidation,
    ServiceValidationView,
};

verus! {

/// Why an instruction was aborted. An aborted instruction changes nothing.
#[derive(Clone, Copy, Debug, PartialEq, Eq, Structural)]
pub enum ReputationError {
    /// The caller or buyer did not sign.
    AuthenticationFailure,
    /// The owner already has a profile.
    DuplicateRegistration,
    /// The seller reference names no profile.
    UnknownSeller,
    /// The name takes more than fifty bytes.
    NameTooLong,
    /// No profile address could be derived for the owner.
    AddressUnavailable,
    /// The environment's clock could not be read.
    ClockUnavailable,
}

/// The accounts of a registration: the caller, and whether it signed.
#[derive(Clone, Copy, Debug)]
pub struct RegisterAgent {
    pub signer: Address,
    pub signer_signed: bool,
}

/// The accounts of a validation: the buyer, whether it signed, and the
/// address of the seller's profile.
#[derive(Clone, Copy, Debug)]
pub struct RecordValidation {
    pub buyer: Address,
    pub buyer_signed: bool,
    pub seller_profile: Address,
}

/// What registering `name` for `signer` yields: the result and the next state.
pub open spec fn register_outcome(l: LedgerView, signer: Seq<u8>, signed: bool, name: Seq<char>) -> (
    Result<(), ReputationError>,
    LedgerView,
) {
    if !signed {
        (Err(ReputationError::AuthenticationFailure), l)
    } else {
        match profile_address_of(signer, l.program) {
            None => (Err(ReputationError::AddressUnavailable), l),
            Some(a) => if l.profiles.contains_key(a) {
                (Err(ReputationError::DuplicateRegistration), l)
            } else if !name_fits(name) {
                (Err(ReputationError::NameTooLong), l)
            } else {
                (
                    Ok(()),
                    LedgerView { profiles: l.profiles.insert(a, fresh_profile(signer, name)), ..l },
                )
            },
        }
    }
}

/// What recording an outcome against `seller` at time `timestamp` yields.
pub open spec fn validation_outcome(
    l: LedgerView,
    buyer: Seq<u8>,
    signed: bool,
    seller: Seq<u8>,
    success: bool,
    timestamp: i64,
) -> (Result<(), ReputationError>, LedgerView) {
    if !signed {
        (Err(ReputationError::AuthenticationFailure), l)
    } else if !l.profiles.contains_key(seller) {
        (Err(ReputationError::UnknownSeller), l)
    } else {
        (
            Ok(()),
            LedgerView {
                profiles: l.profiles.insert(seller, scored(l.profiles[seller], success)),
                validations: l.validations.push(
                    ServiceValidationView { buyer, seller, success, timestamp },
                ),
                ..l
            },
        )
    }
}

/// Relies on `Clock::get` from anchor_lang (the clock sysvar): it reads the
/// environment's clock, so nothing is known of the reading or of whether it
/// succeeds.
#[verifier::external_body]
fn commit_time() -> (r: Option<i64>) {
    <anchor_lang::prelude::Clock as anchor_lang::prelude::SolanaSysvar>::get().ok().map(
        |clock| clock.unix_timestamp,
    )
}

/// Creates the profile of the signing caller, at the address derived from its
/// key, with the initial score and no successful transactions.
pub fn register_agent(ledger: &mut Ledger, accounts: &RegisterAgent, name: String) -> (r: Result<
    (),
    ReputationError,
>)
    requires
        old(ledger).wf(),
    ensures
        final(ledger).wf(),
        (r, final(ledger)@) == register_outcome(
            old(ledger)@,
            accounts.signer@,
            accounts.signer_signed,
            name@,
        ),
{
    if !accounts.signer_signed {
        return Err(ReputationError::AuthenticationFailure);
    }
    let program = ledger.program_id();
    let address = match profile_address(&accounts.signer, &program) {
        Some(a) => a,
        None => {
            return Err(ReputationError::AddressUnavailable);
        },
    };
    if ledger.has_profile(&address) {
        return Err(ReputationError::DuplicateRegistration);
    }
    if !check_name(&name) {
        return Err(ReputationError::NameTooLong);
    }
    ledger.add_profile(address, AgentProfile::new(accounts.signer, name));
    Ok(())
}

/// Records the outcome `success` of a service that the seller gave the
/// buyer, stamped with the commit time `timestamp`, and applies it to the
/// seller's score.
pub fn record_validation_at(
    ledger: &mut Ledger,
    accounts: &RecordValidation,
    success: bool,
    timestamp: i64,
) -> (r: Result<(), ReputationError>)
    requires
        old(ledger).wf(),
    ensures
        final(ledger).wf(),
        (r, final(ledger)@) == validation_outcome(
            old(ledger)@,
            accounts.buyer@,
            accounts.buyer_signed,
            accounts.seller_profile@,
            success,
            timestamp,
        ),
{
    if !accounts.buyer_signed {
        return Err(ReputationError::AuthenticationFailure);
    }
    if !ledger.has_profile(&accounts.seller_profile) {
        return Err(ReputationError::UnknownSeller);
    }
    let record = ServiceValidation {
        buyer: accounts.buyer,
        seller: accounts.seller_profile,
        success,
        timestamp,
    };
    ledger.apply_validation(record);
    Ok(())
}

/// Records the outcome `success` as [`record_validation_at`] does, stamped
/// with the environment's clock at commit time.
pub fn record_validation(ledger: &mut Ledger, accounts: &RecordValidation, success: bool) -> (r:
    Result<(), ReputationError>)
    requires
        old(ledger).wf(),
    ensures
        final(ledger).wf(),
        !accounts.buyer_signed ==> r == Err::<(), ReputationError>(
            ReputationError::AuthenticationFailure,
        ) && final(ledger)@ == old(ledger)@,
        accounts.buyer_signed && !old(ledger)@.profiles.contains_key(accounts.seller_profile@) ==> r
            == Err::<(), ReputationError>(ReputationError::UnknownSeller) && final(ledger)@ == old(
            ledger,
        )@,
        accounts.buyer_signed && old(ledger)@.profiles.contains_key(accounts.seller_profile@) ==> (r
            == Err::<(), ReputationError>(ReputationError::ClockUnavailable) && final(ledger)@ == old(
            ledger,
        )@) || exists|t: i64|
            (r, final(ledger)@) == #[trigger] validation_outcome(
                old(ledger)@,
                accounts.buyer@,
                true,
                accounts.seller_profile@,
                success,
                t,
            ),
{
    if !accounts.buyer_signed {
        return Err(ReputationError::AuthenticationFailure);
    }
    if !ledger.has_profile(&accounts.seller_profile) {
        return Err(ReputationError::UnknownSeller);
    }
    match commit_time() {
        Some(t) => record_validation_at(ledger, accounts, success, t),
        None => Err(ReputationError::ClockUnavailable),
    }
}

} // verus!
