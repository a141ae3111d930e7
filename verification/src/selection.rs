use vstd::prelude::*;
use crate::profile::{FixedSupply, PowerProfile, is_fixed, fixed_of};

verus! {

/// The index the selection policy picks from an advertised set: the
/// fixed-supply profile with the highest advertised voltage, ties broken by
/// the lowest index; `None` where no fixed-supply profile is advertised.
pub open spec fn selected_index(caps: Seq<PowerProfile>) -> Option<int>
    decreases caps.len(),
{
    if caps.len() == 0 {
        None
    } else {
        let earlier = selected_index(caps.drop_last());
        if !is_fixed(caps.last()) {
            earlier
        } else {
            match earlier {
                Option::None => Some(caps.len() - 1),
                Option::Some(j) => if fixed_of(caps.last()).voltage > fixed_of(caps[j]).voltage {
                    Some(caps.len() - 1)
                } else {
                    Some(j)
                },
            }
        }
    }
}

/// The selected index names a fixed-supply profile of maximal voltage and is
/// the first index reaching that voltage; selection fails exactly when the
/// set advertises no fixed-supply profile.
pub proof fn lemma_selected_index_characterization(caps: Seq<PowerProfile>)
    ensures
        (selected_index(caps) is None) <==> (forall|j: int|
            0 <= j < caps.len() ==> !is_fixed(caps[j])),
        selected_index(caps) matches Some(i) ==> {
            &&& 0 <= i < caps.len()
            &&& is_fixed(caps[i])
            &&& forall|j: int|
                0 <= j < caps.len() && is_fixed(caps[j])
                    ==> fixed_of(caps[j]).voltage <= fixed_of(caps[i]).voltage
            &&& forall|j: int|
                0 <= j < i && is_fixed(caps[j])
                    ==> fixed_of(caps[j]).voltage < fixed_of(caps[i]).voltage
        },
    decreases caps.len(),
{
    if caps.len() > 0 {
        lemma_selected_index_characterization(caps.drop_last());
        assert(forall|j: int| 0 <= j < caps.len() - 1 ==> caps.drop_last()[j] == caps[j]);
    }
}

/// Selection is deterministic: it is a function of the advertised set alone,
/// so repeated selection over the same set yields the same index.
pub proof fn lemma_selection_deterministic(caps1: Seq<PowerProfile>, caps2: Seq<PowerProfile>)
    requires
        caps1 == caps2,
    ensures
        selected_index(caps1) == selected_index(caps2),
{
}

/// Picks the profile to request from an advertised set: the index and payload
/// of the highest-voltage fixed-supply profile (first occurrence on ties), or
/// `None` where no fixed-supply profile is advertised.
pub fn select_profile(caps: &Vec<PowerProfile>) -> (r: Option<(usize, FixedSupply)>)
    ensures
        match selected_index(caps@) {
            Option::Some(i) => r == Some((i as usize, fixed_of(caps@[i]))),
            Option::None => r is None,
        },
{
    let mut best: Option<(usize, FixedSupply)> = None;
    let mut k: usize = 0;
    while k < caps.len()
        invariant
            k <= caps.len(),
            match selected_index(caps@.take(k as int)) {
                Option::Some(i) => {
                    &&& 0 <= i < k
                    &&& is_fixed(caps@[i])
                    &&& best == Some((i as usize, fixed_of(caps@[i])))
                },
                Option::None => best is None,
            },
        decreases caps.len() - k,
    {
        proof {
            assert(caps@.take(k as int + 1).drop_last() =~= caps@.take(k as int));
            assert(caps@.take(k as int + 1).last() == caps@[k as int]);
        }
        if let PowerProfile::FixedSupply(f) = caps[k] {
            match best {
                Option::None => {
                    best = Some((k, f));
                },
                Option::Some((_, bf)) => {
                    if f.voltage > bf.voltage {
                        best = Some((k, f));
                    }
                },
            }
        }
        k += 1;
    }
    proof {
        assert(caps@.take(k as int) =~= caps@);
    }
    best
}

} // verus!
