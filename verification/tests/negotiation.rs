use pd_sink::profile::{current_ma, voltage_mv, FixedSupply, PowerProfile};
use pd_sink::selection::select_profile;
use pd_sink::status::{Event, NegotiationStatus, PowerRequest, Reaction};
use pd_sink::vdm::FatalError;

fn fixed(voltage: u16, max_current: u16) -> PowerProfile {
    PowerProfile::FixedSupply(FixedSupply { voltage, max_current })
}

#[test]
fn fresh_store_is_empty_and_unset() {
    let st = NegotiationStatus::new();
    assert_eq!(st.catalog_len(), 0);
    assert_eq!(st.catalog_profile(0), None);
    assert_eq!(st.requested, None);
    assert_eq!(st.accepted, None);
    assert_eq!(st.ready, None);
    assert_eq!(st.rejected, None);
}

#[test]
fn capabilities_select_max_voltage_and_request_scaled_current() {
    let mut st = NegotiationStatus::new();
    let caps = vec![fixed(100, 100), fixed(180, 300)];
    let r = st.handle_event(&Event::SourceCapabilitiesChanged(caps));
    assert_eq!(
        r,
        Ok(Reaction::IssueRequest(PowerRequest { index: 1, current: 3000 }))
    );
    assert_eq!(st.requested, Some(1));
    assert_eq!(st.accepted, None);
    assert_eq!(st.ready, None);
    assert_eq!(st.rejected, None);
    assert_eq!(st.catalog_len(), 2);
    assert_eq!(
        st.catalog_profile(0),
        Some(FixedSupply { voltage: 100, max_current: 100 })
    );
    assert_eq!(
        st.catalog_profile(1),
        Some(FixedSupply { voltage: 180, max_current: 300 })
    );
    assert_eq!(st.catalog_profile(2), None);
}

#[test]
fn catalog_keeps_only_fixed_supplies_in_order() {
    let mut st = NegotiationStatus::new();
    let caps = vec![
        PowerProfile::Battery,
        fixed(90, 150),
        PowerProfile::VariableSupply,
        fixed(90, 200),
        PowerProfile::Augmented,
    ];
    let r = st.handle_event(&Event::SourceCapabilitiesChanged(caps));
    // Equal voltages: the first occurrence (advertised index 1) wins.
    assert_eq!(
        r,
        Ok(Reaction::IssueRequest(PowerRequest { index: 1, current: 1500 }))
    );
    assert_eq!(st.requested, Some(1));
    assert_eq!(st.catalog_len(), 2);
    assert_eq!(
        st.catalog_profile(0),
        Some(FixedSupply { voltage: 90, max_current: 150 })
    );
    assert_eq!(
        st.catalog_profile(1),
        Some(FixedSupply { voltage: 90, max_current: 200 })
    );
}

#[test]
fn catalog_overflow_drops_profiles_past_eight() {
    let mut st = NegotiationStatus::new();
    let mut caps = Vec::new();
    for i in 0..10u16 {
        caps.push(fixed(100 + i, 50 + i));
    }
    let r = st.handle_event(&Event::SourceCapabilitiesChanged(caps));
    // Selection ranges over the whole advertised set, beyond the capacity.
    assert_eq!(
        r,
        Ok(Reaction::IssueRequest(PowerRequest { index: 9, current: 590 }))
    );
    assert_eq!(st.requested, Some(9));
    assert_eq!(st.catalog_len(), 8);
    for i in 0..8u16 {
        assert_eq!(
            st.catalog_profile(i as usize),
            Some(FixedSupply { voltage: 100 + i, max_current: 50 + i })
        );
    }
    assert_eq!(st.catalog_profile(8), None);
}

#[test]
fn empty_advertisement_is_fatal_and_resets() {
    let mut st = NegotiationStatus::new();
    let caps = vec![fixed(100, 100)];
    st.handle_event(&Event::SourceCapabilitiesChanged(caps)).unwrap();
    let r = st.handle_event(&Event::SourceCapabilitiesChanged(Vec::new()));
    assert_eq!(r, Err(FatalError::NoFixedSupplyProfile));
    assert_eq!(st.requested, None);
    assert_eq!(st.accepted, None);
    assert_eq!(st.ready, None);
    assert_eq!(st.rejected, None);
    assert_eq!(st.catalog_len(), 0);
}

#[test]
fn advertisement_without_fixed_supply_is_fatal() {
    let mut st = NegotiationStatus::new();
    let caps = vec![PowerProfile::Battery, PowerProfile::VariableSupply];
    let r = st.handle_event(&Event::SourceCapabilitiesChanged(caps));
    assert_eq!(r, Err(FatalError::NoFixedSupplyProfile));
    assert_eq!(st.catalog_len(), 0);
    assert_eq!(st.requested, None);
}

#[test]
fn accepted_without_request_is_fatal() {
    let mut st = NegotiationStatus::new();
    let r = st.handle_event(&Event::PowerAccepted);
    assert_eq!(r, Err(FatalError::AcceptedWithoutRequest));
    assert_eq!(st.requested, None);
    assert_eq!(st.accepted, None);
    assert_eq!(st.ready, None);
    assert_eq!(st.rejected, None);
}

#[test]
fn rejected_without_request_is_fatal() {
    let mut st = NegotiationStatus::new();
    let r = st.handle_event(&Event::PowerRejected);
    assert_eq!(r, Err(FatalError::RejectedWithoutRequest));
    assert_eq!(st.rejected, None);
}

#[test]
fn ready_without_accept_is_fatal() {
    let mut st = NegotiationStatus::new();
    let r = st.handle_event(&Event::PowerReady);
    assert_eq!(r, Err(FatalError::ReadyWithoutAccept));
    assert_eq!(st.ready, None);
}

#[test]
fn accept_moves_requested_to_accepted() {
    let mut st = NegotiationStatus::new();
    let caps = vec![fixed(100, 100), fixed(180, 300)];
    st.handle_event(&Event::SourceCapabilitiesChanged(caps)).unwrap();
    let r = st.handle_event(&Event::PowerAccepted);
    assert_eq!(r, Ok(Reaction::Nothing));
    assert_eq!(st.accepted, Some(1));
    assert_eq!(st.requested, None);
    assert_eq!(st.rejected, None);
    assert_eq!(st.ready, None);
}

#[test]
fn reject_moves_requested_to_rejected() {
    let mut st = NegotiationStatus::new();
    let caps = vec![fixed(100, 100), fixed(180, 300)];
    st.handle_event(&Event::SourceCapabilitiesChanged(caps)).unwrap();
    let r = st.handle_event(&Event::PowerRejected);
    assert_eq!(r, Ok(Reaction::Nothing));
    assert_eq!(st.rejected, Some(1));
    assert_eq!(st.requested, None);
    assert_eq!(st.accepted, None);
    assert_eq!(st.ready, None);
}

#[test]
fn ready_marks_accepted_index_ready() {
    let mut st = NegotiationStatus::new();
    let caps = vec![fixed(100, 100), fixed(180, 300)];
    st.handle_event(&Event::SourceCapabilitiesChanged(caps)).unwrap();
    st.handle_event(&Event::PowerAccepted).unwrap();
    let r = st.handle_event(&Event::PowerReady);
    assert_eq!(r, Ok(Reaction::Nothing));
    assert_eq!(st.ready, Some(1));
    assert_eq!(st.accepted, Some(1));
    assert_eq!(st.requested, None);
    assert_eq!(st.rejected, None);
}

#[test]
fn new_advertisement_abandons_negotiation_in_flight() {
    let mut st = NegotiationStatus::new();
    let caps = vec![fixed(100, 100), fixed(180, 300)];
    st.handle_event(&Event::SourceCapabilitiesChanged(caps)).unwrap();
    st.handle_event(&Event::PowerAccepted).unwrap();
    st.handle_event(&Event::PowerReady).unwrap();
    let r = st.handle_event(&Event::SourceCapabilitiesChanged(vec![fixed(100, 150)]));
    assert_eq!(
        r,
        Ok(Reaction::IssueRequest(PowerRequest { index: 0, current: 1500 }))
    );
    assert_eq!(st.requested, Some(0));
    assert_eq!(st.accepted, None);
    assert_eq!(st.ready, None);
    assert_eq!(st.rejected, None);
    assert_eq!(st.catalog_len(), 1);
}

#[test]
fn protocol_changed_leaves_everything_alone() {
    let mut st = NegotiationStatus::new();
    let caps = vec![fixed(100, 100)];
    st.handle_event(&Event::SourceCapabilitiesChanged(caps)).unwrap();
    let r = st.handle_event(&Event::ProtocolChanged);
    assert_eq!(r, Ok(Reaction::Nothing));
    assert_eq!(st.requested, Some(0));
    assert_eq!(st.catalog_len(), 1);
}

#[test]
fn selection_is_deterministic_across_repeated_calls() {
    let caps = vec![fixed(100, 100), fixed(180, 300), fixed(180, 50)];
    let first = select_profile(&caps);
    let second = select_profile(&caps);
    assert_eq!(first, second);
    assert_eq!(first, Some((1, FixedSupply { voltage: 180, max_current: 300 })));
}

#[test]
fn selection_of_no_fixed_supply_is_none() {
    assert_eq!(select_profile(&Vec::new()), None);
    assert_eq!(select_profile(&vec![PowerProfile::Battery]), None);
}

#[test]
fn display_scaling_matches_engine_units() {
    let supply = FixedSupply { voltage: 100, max_current: 100 };
    assert_eq!(voltage_mv(&supply), 5000);
    assert_eq!(current_ma(&supply), 1000);
    let supply = FixedSupply { voltage: 180, max_current: 300 };
    assert_eq!(voltage_mv(&supply), 9000);
    assert_eq!(current_ma(&supply), 3000);
}
