//! The ledger: profiles stored at their derived addresses, and the
//! append-only trail of validation records.

use vstd::prelude::*;
use crate::address::{profile_address_of, Address};
use crate::records::{scored, AgentProfile, AgentProfileView, ServiceValidation, ServiceValidationView};

verus! {

/// All records kept by one program.
pub struct Ledger {
    program_id: Address,
    profiles: Vec<(Address, AgentProfile)>,
    validations: Vec<ServiceValidation>,
}

/// The mathematical content of a [`Ledger`]: the owning program's id, the
/// profiles by address, and the validation records in the order of their
/// creation.
pub struct LedgerView {
    pub program: Seq<u8>,
    pub profiles: Map<Seq<u8>, AgentProfileView>,
    pub validations: Seq<ServiceValidationView>,
}

/// The map that a sequence of (address, profile) slots stands for.
pub open spec fn slots_map(s: Seq<(Seq<u8>, AgentProfileView)>) -> Map<Seq<u8>, AgentProfileView>
    decreases s.len(),
{
    if s.len() == 0 {
        Map::empty()
    } else {
        slots_map(s.drop_last()).insert(s.last().0, s.last().1)
    }
}

/// No address occurs in two slots.
pub open spec fn slots_unique(s: Seq<(Seq<u8>, AgentProfileView)>) -> bool {
    forall|i: int, j: int| 0 <= i < j < s.len() ==> s[i].0 != s[j].0
}

/// Every profile lives at the address derived from its owner.
pub open spec fn owner_addressed(v: LedgerView) -> bool {
    forall|a: Seq<u8>|
        #[trigger] v.profiles.contains_key(a) ==> profile_address_of(v.profiles[a].owner, v.program)
            == Some(a)
}

proof fn lemma_slot_in_map(s: Seq<(Seq<u8>, AgentProfileView)>, i: int)
    requires
        slots_unique(s),
        0 <= i < s.len(),
    ensures
        slots_map(s).contains_key(s[i].0),
        slots_map(s)[s[i].0] == s[i].1,
    decreases s.len(),
{
    if i < s.len() - 1 {
        let d = s.drop_last();
        assert(d[i] == s[i]);
        lemma_slot_in_map(d, i);
    }
}

proof fn lemma_absent_from_map(s: Seq<(Seq<u8>, AgentProfileView)>, a: Seq<u8>)
    requires
        forall|i: int| 0 <= i < s.len() ==> s[i].0 != a,
    ensures
        !slots_map(s).contains_key(a),
    decreases s.len(),
{
    if s.len() > 0 {
        let d = s.drop_last();
        assert(s.last() == s[s.len() - 1]);
        assert forall|i: int| 0 <= i < d.len() implies d[i].0 != a by {
            assert(d[i] == s[i]);
        }
        lemma_absent_from_map(d, a);
    }
}

proof fn lemma_update_slot(s: Seq<(Seq<u8>, AgentProfileView)>, i: int, p: AgentProfileView)
    requires
        slots_unique(s),
        0 <= i < s.len(),
    ensures
        slots_map(s.update(i, (s[i].0, p))) == slots_map(s).insert(s[i].0, p),
    decreases s.len(),
{
    let k = s[i].0;
    let t = s.update(i, (k, p));
    let d = s.drop_last();
    if i == s.len() - 1 {
        assert(t.drop_last() =~= d);
        assert(slots_map(t) =~= slots_map(s).insert(k, p));
    } else {
        assert(t.drop_last() =~= d.update(i, (k, p)));
        assert(d[i] == s[i]);
        lemma_update_slot(d, i, p);
        assert(s.last().0 != k);
        assert(slots_map(t) =~= slots_map(s).insert(k, p));
    }
}

impl View for Ledger {
    type V = LedgerView;

    closed spec fn view(&self) -> LedgerView {
        LedgerView {
            program: self.program_id@,
            profiles: slots_map(self.slots()),
            validations: self.validations@.map_values(|v: ServiceValidation| v@),
        }
    }
}

impl Ledger {
    /// The profile slots, as addresses and profile views.
    pub closed spec fn slots(&self) -> Seq<(Seq<u8>, AgentProfileView)> {
        self.profiles@.map_values(|e: (Address, AgentProfile)| (e.0@, e.1@))
    }

    /// Well-formedness: one slot per address, each profile at the address
    /// derived from its owner.
    pub open spec fn wf(&self) -> bool {
        &&& slots_unique(self.slots())
        &&& owner_addressed(self@)
    }

    /// An empty ledger of the program `program_id`.
    pub fn new(program_id: Address) -> (r: Ledger)
        ensures
            r.wf(),
            r@.program == program_id@,
            r@.profiles == Map::<Seq<u8>, AgentProfileView>::empty(),
            r@.validations == Seq::<ServiceValidationView>::empty(),
    {
        let r = Ledger { program_id, profiles: Vec::new(), validations: Vec::new() };
        assert(r.slots() =~= Seq::empty());
        assert(r@.validations =~= Seq::empty());
        r
    }

    /// The id of the program whose records these are.
    pub fn program_id(&self) -> (r: Address)
        ensures
            r@ == self@.program,
    {
        self.program_id
    }

    /// The slot that holds the profile at `address`, if any.
    fn find_slot(&self, address: &Address) -> (r: Option<usize>)
        requires
            self.wf(),
        ensures
            r is None ==> !self@.profiles.contains_key(address@),
            r matches Some(i) ==> i < self.profiles.len() && self.slots()[i as int].0 == address@
                && self@.profiles.contains_key(address@)
                && self@.profiles[address@] == self.profiles@[i as int].1@,
    {
        let mut i: usize = 0;
        while i < self.profiles.len()
            invariant
                self.wf(),
                i <= self.profiles.len(),
                forall|j: int| 0 <= j < i ==> self.slots()[j].0 != address@,
            decreases self.profiles.len() - i,
        {
            if self.profiles[i].0.same_as(address) {
                proof {
                    lemma_slot_in_map(self.slots(), i as int);
                }
                return Some(i);
            }
            i = i + 1;
        }
        proof {
            lemma_absent_from_map(self.slots(), address@);
        }
        None
    }

    /// Whether a profile lives at `address`.
    pub fn has_profile(&self, address: &Address) -> (r: bool)
        requires
            self.wf(),
        ensures
            r == self@.profiles.contains_key(address@),
    {
        self.find_slot(address).is_some()
    }

    /// The profile at `address`, if any.
    pub fn profile(&self, address: &Address) -> (r: Option<&AgentProfile>)
        requires
            self.wf(),
        ensures
            r is None <==> !self@.profiles.contains_key(address@),
            r matches Some(p) ==> p@ == self@.profiles[address@],
    {
        match self.find_slot(address) {
            Some(i) => Some(&self.profiles[i].1),
            None => None,
        }
    }

    /// How many validation records exist.
    pub fn validation_count(&self) -> (r: usize)
        ensures
            r == self@.validations.len(),
    {
        self.validations.len()
    }

    /// The `i`-th validation record, in the order of creation.
    pub fn validation(&self, i: usize) -> (r: &ServiceValidation)
        requires
            i < self@.validations.len(),
        ensures
            r@ == self@.validations[i as int],
    {
        &self.validations[i]
    }

    /// Stores a new profile at a free address derived from its owner.
    pub(crate) fn add_profile(&mut self, address: Address, profile: AgentProfile)
        requires
            old(self).wf(),
            !old(self)@.profiles.contains_key(address@),
            profile_address_of(profile.owner@, old(self)@.program) == Some(address@),
        ensures
            final(self).wf(),
            final(self)@.program == old(self)@.program,
            final(self)@.profiles == old(self)@.profiles.insert(address@, profile@),
            final(self)@.validations == old(self)@.validations,
    {
        let ghost s0 = self.slots();
        let ghost a = address@;
        let ghost p = profile@;
        self.profiles.push((address, profile));
        proof {
            assert(self.slots() =~= s0.push((a, p)));
            assert(self.slots().drop_last() =~= s0);
            assert forall|i: int, j: int| 0 <= i < j < self.slots().len() implies self.slots()[i].0
                != self.slots()[j].0 by {
                if j == s0.len() {
                    lemma_slot_in_map(s0, i);
                }
            }
        }
    }

    /// Appends `record` and applies its outcome to the profile at the seller
    /// address, in one step.
    pub(crate) fn apply_validation(&mut self, record: ServiceValidation)
        requires
            old(self).wf(),
            old(self)@.profiles.contains_key(record.seller@),
        ensures
            final(self).wf(),
            final(self)@.program == old(self)@.program,
            final(self)@.profiles == old(self)@.profiles.insert(
                record.seller@,
                scored(old(self)@.profiles[record.seller@], record.success),
            ),
            final(self)@.validations == old(self)@.validations.push(record@),
    {
        let ghost s0 = self.slots();
        let ghost v0 = self@.validations;
        let i = match self.find_slot(&record.seller) {
            Some(i) => i,
            None => {
                return;
            },
        };
        self.profiles[i].1.apply_outcome(record.success);
        self.validations.push(record);
        proof {
            let a = record.seller@;
            let p = scored(s0[i as int].1, record.success);
            assert(self.slots() =~= s0.update(i as int, (a, p)));
            lemma_update_slot(s0, i as int, p);
            assert(self@.validations =~= v0.push(record@));
            assert forall|x: Seq<u8>| #[trigger] self@.profiles.contains_key(x) implies profile_address_of(
                self@.profiles[x].owner,
                self@.program,
            ) == Some(x) by {
                assert(old(self)@.profiles.contains_key(x));
            }
        }
    }
}

} // verus!
