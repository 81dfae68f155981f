//! Equality of bottles: field by field, as the fields' own equalities
//! decide (byte for byte, number for number, text for text).

use crate::bottle::Bottle;
use vstd::prelude::*;
use vstd::std_specs::cmp::PartialEqSpecImpl;

verus! {

/// Two ids hold the same sixteen bytes.
fn same_id(a: &[u8; 16], b: &[u8; 16]) -> (same: bool)
    ensures
        same == (a@ == b@),
{
    let mut i: usize = 0;
    while i < 16
        invariant
            i <= 16,
            forall|j: int| 0 <= j < i ==> a@[j] == b@[j],
        decreases 16 - i,
    {
        if a[i] != b[i] {
            return false;
        }
        i = i + 1;
    }
    assert(a@ =~= b@);
    true
}

/// Two sequences of trits hold the same trits in the same order.
fn same_trits(a: &Vec<i8>, b: &Vec<i8>) -> (same: bool)
    ensures
        same == (a@ == b@),
{
    let same = a == b;
    if same {
        assert(a@ =~= b@);
    }
    same
}

impl PartialEq for Bottle {
    fn eq(&self, other: &Bottle) -> (same: bool) {
        let same = same_id(&self.id, &other.id) && self.ver == other.ver && self.src == other.src
            && self.tgt == other.tgt && self.act == other.act && same_trits(&self.trits, &other.trits)
            && self.enc == other.enc && self.pay == other.pay && self.ttl == other.ttl;
        same
    }
}

impl PartialEqSpecImpl for Bottle {
    open spec fn obeys_eq_spec() -> bool {
        true
    }

    open spec fn eq_spec(&self, other: &Bottle) -> bool {
        &&& self.id@ == other.id@
        &&& self.ver == other.ver
        &&& self.src@ == other.src@
        &&& self.tgt@ == other.tgt@
        &&& self.act@ == other.act@
        &&& self.trits@ == other.trits@
        &&& self.enc@ == other.enc@
        &&& self.pay@ == other.pay@
        &&& self.ttl == other.ttl
    }
}

} // verus!
