//! Identities of the parties to a match.

use vstd::prelude::*;
use vstd::std_specs::cmp::PartialEqSpecImpl;

verus! {

broadcast use vstd::array::group_array_axioms;

/// A 32-byte identity of a participant or referee. The caller has
/// authenticated it; nothing here verifies a signature.
#[derive(Clone, Copy, Debug)]
pub struct Identity {
    pub bytes: [u8; 32],
}

impl PartialEq for Identity {
    fn eq(&self, other: &Identity) -> (r: bool) {
        let mut i: usize = 0;
        while i < 32
            invariant
                i <= 32,
                forall|j: int| 0 <= j < i ==> self.bytes@[j] == other.bytes@[j],
            decreases 32 - i,
        {
            if self.bytes[i] != other.bytes[i] {
                return false;
            }
            i += 1;
        }
        proof {
            assert(self.bytes@ =~= other.bytes@);
            assert(self.bytes == other.bytes);
        }
        true
    }
}

impl Eq for Identity {

}

impl PartialEqSpecImpl for Identity {
    open spec fn obeys_eq_spec() -> bool {
        true
    }

    open spec fn eq_spec(&self, other: &Identity) -> bool {
        *self == *other
    }
}

impl Identity {
    /// The sentinel that stands for "no identity": thirty-two zero bytes.
    pub open spec fn spec_none() -> Identity {
        Identity { bytes: vstd::array::spec_array_fill_for_copy_type::<u8, 32>(0u8) }
    }

    /// Whether this is the sentinel.
    pub open spec fn spec_is_none(&self) -> bool {
        *self == Identity::spec_none()
    }

    /// Returns the sentinel identity.
    pub fn none() -> (r: Identity)
        ensures
            r == Identity::spec_none(),
    {
        Identity { bytes: [0u8; 32] }
    }

    /// Tells whether this is the sentinel identity.
    pub fn is_none(&self) -> (r: bool)
        ensures
            r == self.spec_is_none(),
    {
        *self == Identity::none()
    }
}

/// An identity is the sentinel exactly when each of its bytes is zero.
pub proof fn law_none_is_all_zero(a: Identity)
    ensures
        a.spec_is_none() <==> (forall|j: int| 0 <= j < 32 ==> a.bytes@[j] == 0u8),
{
    let zero = Identity::spec_none();
    assert(forall|j: int| 0 <= j < 32 ==> zero.bytes@[j] == 0u8);
    if forall|j: int| 0 <= j < 32 ==> a.bytes@[j] == 0u8 {
        assert(a.bytes@ =~= zero.bytes@);
        assert(a.bytes == zero.bytes);
    }
}

} // verus!
