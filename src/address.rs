//! Account addresses and the derivation of profile addresses.

use vstd::prelude::*;

verus! {

/// A 32-byte account address (a public key or a program-derived address).
#[derive(Clone, Copy, Debug)]
pub struct Address {
    pub bytes: [u8; 32],
}

impl View for Address {
    type V = Seq<u8>;

    open spec fn view(&self) -> Seq<u8> {
        self.bytes@
    }
}

impl Address {
    /// Byte-wise comparison of two addresses.
    pub fn same_as(&self, other: &Address) -> (r: bool)
        ensures
            r == (self@ == other@),
    {
        let mut i: usize = 0;
        while i < 32
            invariant
                0 <= i <= 32,
                self@.len() == 32,
                other@.len() == 32,
                forall|j: int| 0 <= j < i ==> self@[j] == other@[j],
            decreases 32 - i,
        {
            if self.bytes[i] != other.bytes[i] {
                return false;
            }
            i = i + 1;
        }
        assert(self@ =~= other@);
        true
    }
}

/// The address that `Pubkey::try_find_program_address` derives from the seeds
/// `[tag, key]` under the program `program`, or `None` where it finds none.
pub uninterp spec fn program_address(tag: Seq<u8>, key: Seq<u8>, program: Seq<u8>) -> Option<Seq<u8>>;

/// Relies on `Pubkey::try_find_program_address` from anchor_lang: it searches
/// the bump seeds deterministically, so the result depends on the seeds and the
/// program id alone; it returns `None` rather than panicking.
#[verifier::external_body]
fn find_program_address(tag: &[u8], key: &Address, program: &Address) -> (r: Option<Address>)
    ensures
        r is None ==> program_address(tag@, key@, program@) is None,
        r matches Some(a) ==> program_address(tag@, key@, program@) == Some(a@),
{
    let program_id = anchor_lang::prelude::Pubkey::new_from_array(program.bytes);
    anchor_lang::prelude::Pubkey::try_find_program_address(&[tag, &key.bytes], &program_id)
        .map(|found| Address { bytes: found.0.to_bytes() })
}

/// The namespace tag of profile addresses: the bytes of `"agent"`.
pub open spec fn profile_seed() -> Seq<u8> {
    seq![97u8, 103u8, 101u8, 110u8, 116u8]
}

/// Where the profile of `owner` lives under `program`.
pub open spec fn profile_address_of(owner: Seq<u8>, program: Seq<u8>) -> Option<Seq<u8>> {
    program_address(profile_seed(), owner, program)
}

/// Derives the address of `owner`'s profile under the program `program`.
pub fn profile_address(owner: &Address, program: &Address) -> (r: Option<Address>)
    ensures
        r is None ==> profile_address_of(owner@, program@) is None,
        r matches Some(a) ==> profile_address_of(owner@, program@) == Some(a@),
{
    let tag: [u8; 5] = [97u8, 103u8, 101u8, 110u8, 116u8];
    proof {
        assert(tag@ =~= profile_seed());
    }
    find_program_address(tag.as_slice(), owner, program)
}

} // verus!
