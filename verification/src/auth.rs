//! Who authorised a call.
use crate::address::Address;
use crate::table::TableKey;
use vstd::prelude::*;

verus! {

/// The addresses whose authorisation a call carries.
#[derive(Clone, Debug)]
pub struct Auth {
    signers: Vec<Address>,
}

impl View for Auth {
    type V = Set<Address>;

    closed spec fn view(&self) -> Set<Address> {
        self.signers@.to_set()
    }
}

impl Auth {
    /// A call that nobody authorised.
    pub fn none() -> (r: Self)
        ensures
            r@ == Set::<Address>::empty(),
    {
        let r = Auth { signers: Vec::new() };
        assert(r@ =~= Set::<Address>::empty());
        r
    }

    /// Adds `who` to those who authorised the call.
    pub fn add_signer(&mut self, who: Address)
        ensures
            final(self)@ == old(self)@.insert(who),
    {
        self.signers.push(who);
        proof {
            let before = old(self).signers@;
            let after = before.push(who);
            assert forall|a: Address| #[trigger]
                after.to_set().contains(a) <==> before.to_set().insert(who).contains(a) by {
                if before.contains(a) {
                    let i = choose|i: int| 0 <= i < before.len() && before[i] == a;
                    assert(after[i] == a);
                }
                assert(after[before.len() as int] == who);
            }
            assert(after.to_set() =~= before.to_set().insert(who));
        }
    }

    /// Whether `who` authorised the call.
    pub fn covers(&self, who: &Address) -> (r: bool)
        ensures
            r == self@.contains(*who),
    {
        let mut i: usize = 0;
        while i < self.signers.len()
            invariant
                i <= self.signers.len(),
                forall|j: int| 0 <= j < i ==> self.signers@[j] != *who,
            decreases self.signers.len() - i,
        {
            if self.signers[i].same(who) {
                assert(self.signers@.contains(*who));
                return true;
            }
            i += 1;
        }
        assert(!self.signers@.contains(*who));
        false
    }
}

} // verus!
