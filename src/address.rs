use vstd::prelude::*;

verus! {

/// The identity of an account: its 32-byte public key.
#[derive(Clone, Copy, Debug)]
pub struct Address(pub [u8; 32]);

impl View for Address {
    type V = Seq<u8>;

    open spec fn view(&self) -> Seq<u8> {
        self.0@
    }
}

/// The all-zero identity, which names no account.
pub open spec fn is_zero_address(a: Seq<u8>) -> bool {
    forall|i: int| 0 <= i < a.len() ==> a[i] == 0u8
}

impl Address {
    /// The all-zero identity.
    pub fn zero() -> (r: Address)
        ensures
            is_zero_address(r@),
            r@.len() == 32,
    {
        Address([0u8; 32])
    }

    /// Whether this is the all-zero identity.
    pub fn is_zero(&self) -> (r: bool)
        ensures
            r == is_zero_address(self@),
    {
        let mut i: usize = 0;
        while i < 32
            invariant
                0 <= i <= 32,
                self@.len() == 32,
                forall|j: int| 0 <= j < i ==> self@[j] == 0u8,
            decreases 32 - i,
        {
            if self.0[i] != 0 {
                return false;
            }
            i = i + 1;
        }
        true
    }
}

impl PartialEq for Address {
    fn eq(&self, o: &Address) -> (r: bool) {
        let mut i: usize = 0;
        while i < 32
            invariant
                0 <= i <= 32,
                self@.len() == 32,
                o@.len() == 32,
                forall|j: int| 0 <= j < i ==> self@[j] == o@[j],
            decreases 32 - i,
        {
            if self.0[i] != o.0[i] {
                return false;
            }
            i = i + 1;
        }
        proof {
            assert(self@ =~= o@);
        }
        true
    }
}

impl vstd::std_specs::cmp::PartialEqSpecImpl for Address {
    open spec fn obeys_eq_spec() -> bool {
        true
    }

    open spec fn eq_spec(&self, o: &Address) -> bool {
        self@ == o@
    }
}

impl Eq for Address {
}

} // verus!
