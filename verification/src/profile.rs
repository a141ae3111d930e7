use vstd::prelude::*;

verus! {

/// One advertised fixed-voltage supply, in the raw units of the wire format:
/// `voltage` in 50 mV steps, `max_current` in 10 mA steps.
#[derive(Clone, Copy, PartialEq, Eq, Structural, Debug)]
pub struct FixedSupply {
    pub voltage: u16,
    pub max_current: u16,
}

/// One advertised power profile. Only the fixed-supply variant is actionable
/// by this core; the other variants are observed and skipped, so they carry
/// no payload here.
#[derive(Clone, Copy, PartialEq, Eq, Structural, Debug)]
pub enum PowerProfile {
    FixedSupply(FixedSupply),
    Battery,
    VariableSupply,
    Augmented,
}

/// Whether a profile is a fixed-voltage supply.
pub open spec fn is_fixed(p: PowerProfile) -> bool {
    p is FixedSupply
}

/// The fixed-supply payload of a profile.
pub open spec fn fixed_of(p: PowerProfile) -> FixedSupply
    recommends
        is_fixed(p),
{
    match p {
        PowerProfile::FixedSupply(f) => f,
        _ => FixedSupply { voltage: 0, max_current: 0 },
    }
}

/// The fixed-supply profiles of an advertised set, in their original order.
pub open spec fn fixed_profiles(caps: Seq<PowerProfile>) -> Seq<FixedSupply>
    decreases caps.len(),
{
    if caps.len() == 0 {
        Seq::empty()
    } else if is_fixed(caps.last()) {
        fixed_profiles(caps.drop_last()).push(fixed_of(caps.last()))
    } else {
        fixed_profiles(caps.drop_last())
    }
}

/// What the Profile Catalog holds after an advertisement is processed: the
/// fixed-supply profiles in original order, the first 8 of them where there
/// are more (later ones are dropped, a capacity policy).
pub open spec fn catalog_of(caps: Seq<PowerProfile>) -> Seq<FixedSupply>
    decreases caps.len(),
{
    if caps.len() == 0 {
        Seq::empty()
    } else {
        let rest = catalog_of(caps.drop_last());
        if is_fixed(caps.last()) && rest.len() < 8 {
            rest.push(fixed_of(caps.last()))
        } else {
            rest
        }
    }
}

/// The catalog holds exactly the fixed-supply profiles of the advertisement,
/// in their original order, truncated to the capacity of 8.
pub proof fn lemma_catalog_is_fixed_prefix(caps: Seq<PowerProfile>)
    ensures
        catalog_of(caps).len() <= 8,
        fixed_profiles(caps).len() <= 8 ==> catalog_of(caps) == fixed_profiles(caps),
        fixed_profiles(caps).len() > 8 ==> catalog_of(caps) == fixed_profiles(caps).take(8),
    decreases caps.len(),
{
    if caps.len() > 0 {
        lemma_catalog_is_fixed_prefix(caps.drop_last());
        let head = fixed_profiles(caps.drop_last());
        let whole = fixed_profiles(caps);
        if is_fixed(caps.last()) {
            assert(whole == head.push(fixed_of(caps.last())));
            if head.len() == 8 {
                assert(whole.take(8) =~= head);
            } else if head.len() > 8 {
                assert(whole.take(8) =~= head.take(8));
            }
        }
    }
}

/// An advertisement without a fixed-supply entry leaves the catalog empty.
pub proof fn lemma_catalog_empty_without_fixed(caps: Seq<PowerProfile>)
    requires
        forall|j: int| 0 <= j < caps.len() ==> !is_fixed(caps[j]),
    ensures
        catalog_of(caps) == Seq::<FixedSupply>::empty(),
    decreases caps.len(),
{
    if caps.len() > 0 {
        assert(forall|j: int|
            0 <= j < caps.drop_last().len() ==> caps.drop_last()[j] == caps[j]);
        lemma_catalog_empty_without_fixed(caps.drop_last());
    }
}

/// The advertised voltage in millivolts (the raw field counts 50 mV steps).
pub fn voltage_mv(supply: &FixedSupply) -> (r: u32)
    ensures
        r == supply.voltage * 50,
{
    (supply.voltage as u32) * 50
}

/// The advertised maximum current in milliamps (the raw field counts 10 mA
/// steps); also the unit the protocol engine's power request expects.
pub fn current_ma(supply: &FixedSupply) -> (r: u32)
    ensures
        r == supply.max_current * 10,
{
    (supply.max_current as u32) * 10
}

} // verus!
