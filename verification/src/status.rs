use vstd::prelude::*;
use crate::catalog::{catalog_seq, catalog_new, catalog_clear, catalog_push, catalog_count, catalog_at};
use crate::profile::{FixedSupply, PowerProfile, is_fixed, fixed_of, catalog_of, fixed_profiles, current_ma, lemma_catalog_empty_without_fixed, lemma_catalog_is_fixed_prefix};
use crate::selection::{selected_index, select_profile, lemma_selected_index_characterization};
use crate::vdm::{VdmHeader, VdmDisposition, FatalError, vdm_disposition_of, dispatch_vdm};

verus! {

/// One discrete event reported by the protocol engine's poll interface.
pub enum Event {
    ProtocolChanged,
    SourceCapabilitiesChanged(Vec<PowerProfile>),
    PowerAccepted,
    PowerRejected,
    PowerReady,
    VdmReceived(VdmHeader, Vec<u32>),
}

/// An outbound power request for the protocol engine: the advertised-set
/// index of the chosen profile, and the current to ask for in milliamps.
#[derive(Clone, Copy, PartialEq, Eq, Structural, Debug)]
pub struct PowerRequest {
    pub index: usize,
    pub current: u32,
}

/// What reacting to one event decided, for the caller to carry out: issue a
/// power request to the engine, write a diagnostic line for a vendor-defined
/// message, or nothing beyond the status update.
#[derive(Clone, Copy, PartialEq, Eq, Structural, Debug)]
pub enum Reaction {
    Nothing,
    IssueRequest(PowerRequest),
    LogVdm(VdmDisposition),
}

/// The negotiation status record: the Profile Catalog captured from the most
/// recent capability advertisement, and four optional indices into the
/// advertised set. Written only by the negotiation task; read by observers.
pub struct NegotiationStatus {
    /// The Profile Catalog: the fixed-supply profiles of the latest
    /// advertisement, at most 8 of them, in their original order.
    pub pdos: heapless::Vec<FixedSupply, 8>,
    /// The index whose request was accepted (contract established, not yet
    /// electrically ready).
    pub accepted: Option<usize>,
    /// The index whose accepted contract is electrically active.
    pub ready: Option<usize>,
    /// The index currently awaiting accept or reject.
    pub requested: Option<usize>,
    /// The index whose request was refused.
    pub rejected: Option<usize>,
}

impl NegotiationStatus {
    /// The profiles the catalog holds, in advertisement order.
    pub open spec fn catalog(&self) -> Seq<FixedSupply> {
        catalog_seq(self.pdos)
    }

    /// The record's invariant: a pending request excludes any settled
    /// outcome, at most one of accepted/rejected is set, and ready can only
    /// name the accepted index.
    pub open spec fn wf(&self) -> bool {
        &&& (self.requested is Some ==> self.accepted is None && self.rejected is None
            && self.ready is None)
        &&& (self.ready is Some ==> self.ready == self.accepted)
        &&& !(self.accepted is Some && self.rejected is Some)
    }

    /// The record as a process starts: empty catalog, nothing negotiated.
    pub fn new() -> (r: Self)
        ensures
            r.catalog() == Seq::<FixedSupply>::empty(),
            r.requested is None,
            r.accepted is None,
            r.ready is None,
            r.rejected is None,
            r.wf(),
    {
        NegotiationStatus {
            pdos: catalog_new(),
            accepted: None,
            ready: None,
            requested: None,
            rejected: None,
        }
    }

    /// The number of profiles the catalog holds.
    pub fn catalog_len(&self) -> (n: usize)
        ensures
            n == self.catalog().len(),
    {
        catalog_count(&self.pdos)
    }

    /// The catalog entry at `i`, where one is held.
    pub fn catalog_profile(&self, i: usize) -> (r: Option<FixedSupply>)
        ensures
            i < self.catalog().len() ==> r == Some(self.catalog()[i as int]),
            i >= self.catalog().len() ==> r is None,
    {
        catalog_at(&self.pdos, i)
    }
}

/// What a capability advertisement must do to the record: abandon any
/// in-flight negotiation, repopulate the catalog with the advertised
/// fixed-supply profiles, and request the selected one; where no fixed-supply
/// profile is advertised the reset stands and the condition is fatal.
pub open spec fn capabilities_transition(
    pre: NegotiationStatus,
    post: NegotiationStatus,
    caps: Seq<PowerProfile>,
    r: Result<Reaction, FatalError>,
) -> bool {
    &&& post.catalog() == catalog_of(caps)
    &&& post.accepted is None
    &&& post.ready is None
    &&& post.rejected is None
    &&& match selected_index(caps) {
        Option::Some(i) => {
            &&& post.requested == Some(i as usize)
            &&& r == Ok::<Reaction, FatalError>(Reaction::IssueRequest(PowerRequest {
                index: i as usize,
                current: (fixed_of(caps[i]).max_current * 10) as u32,
            }))
        },
        Option::None => {
            &&& post.requested is None
            &&& r == Err::<Reaction, FatalError>(FatalError::NoFixedSupplyProfile)
        },
    }
}

/// What a PowerAccepted event must do: move `requested` to `accepted` and
/// clear the rest; with no request pending the event is a protocol-ordering
/// violation and the record is untouched.
pub open spec fn accept_transition(
    pre: NegotiationStatus,
    post: NegotiationStatus,
    r: Result<Reaction, FatalError>,
) -> bool {
    match pre.requested {
        Option::Some(i) => {
            &&& post.accepted == Some(i)
            &&& post.requested is None
            &&& post.rejected is None
            &&& post.ready is None
            &&& post.catalog() == pre.catalog()
            &&& r == Ok::<Reaction, FatalError>(Reaction::Nothing)
        },
        Option::None => {
            &&& post == pre
            &&& r == Err::<Reaction, FatalError>(FatalError::AcceptedWithoutRequest)
        },
    }
}

/// What a PowerRejected event must do: move `requested` to `rejected` and
/// clear the rest; with no request pending the event is a protocol-ordering
/// violation and the record is untouched.
pub open spec fn reject_transition(
    pre: NegotiationStatus,
    post: NegotiationStatus,
    r: Result<Reaction, FatalError>,
) -> bool {
    match pre.requested {
        Option::Some(i) => {
            &&& post.rejected == Some(i)
            &&& post.requested is None
            &&& post.accepted is None
            &&& post.ready is None
            &&& post.catalog() == pre.catalog()
            &&& r == Ok::<Reaction, FatalError>(Reaction::Nothing)
        },
        Option::None => {
            &&& post == pre
            &&& r == Err::<Reaction, FatalError>(FatalError::RejectedWithoutRequest)
        },
    }
}

/// What a PowerReady event must do: mark the accepted index ready, leaving
/// every other field alone; with nothing accepted the event is a
/// protocol-ordering violation and the record is untouched.
pub open spec fn ready_transition(
    pre: NegotiationStatus,
    post: NegotiationStatus,
    r: Result<Reaction, FatalError>,
) -> bool {
    match pre.accepted {
        Option::Some(i) => {
            &&& post.ready == Some(i)
            &&& post.accepted == pre.accepted
            &&& post.requested == pre.requested
            &&& post.rejected == pre.rejected
            &&& post.catalog() == pre.catalog()
            &&& r == Ok::<Reaction, FatalError>(Reaction::Nothing)
        },
        Option::None => {
            &&& post == pre
            &&& r == Err::<Reaction, FatalError>(FatalError::ReadyWithoutAccept)
        },
    }
}

/// What a vendor-defined message must do: never touch the record; the result
/// follows the dispatch verdict.
pub open spec fn vdm_transition(
    pre: NegotiationStatus,
    post: NegotiationStatus,
    hdr: VdmHeader,
    r: Result<Reaction, FatalError>,
) -> bool {
    &&& post == pre
    &&& match vdm_disposition_of(hdr) {
        Ok(d) => r == Ok::<Reaction, FatalError>(Reaction::LogVdm(d)),
        Err(e) => r == Err::<Reaction, FatalError>(e),
    }
}

impl NegotiationStatus {
    /// Reacts to one protocol-engine event: updates the record as the event
    /// demands and returns what the caller must do next. A fatal result means
    /// the engine broke its ordering contract, the advertisement offered no
    /// usable profile, or a structured VDM has no handler; the caller is
    /// expected to abort rather than recover.
    pub fn handle_event(&mut self, event: &Event) -> (r: Result<Reaction, FatalError>)
        requires
            old(self).wf(),
        ensures
            final(self).wf(),
            match *event {
                Event::ProtocolChanged => *final(self) == *old(self) && r == Ok::<Reaction, FatalError>(Reaction::Nothing),
                Event::SourceCapabilitiesChanged(caps) => capabilities_transition(
                    *old(self),
                    *final(self),
                    caps@,
                    r,
                ),
                Event::PowerAccepted => accept_transition(*old(self), *final(self), r),
                Event::PowerRejected => reject_transition(*old(self), *final(self), r),
                Event::PowerReady => ready_transition(*old(self), *final(self), r),
                Event::VdmReceived(hdr, _) => vdm_transition(*old(self), *final(self), hdr, r),
            },
    {
        match event {
            Event::ProtocolChanged => Ok(Reaction::Nothing),
            Event::SourceCapabilitiesChanged(caps) => {
                catalog_clear(&mut self.pdos);
                self.accepted = None;
                self.ready = None;
                self.requested = None;
                self.rejected = None;
                let mut k: usize = 0;
                while k < caps.len()
                    invariant
                        k <= caps.len(),
                        catalog_seq(self.pdos) == catalog_of(caps@.take(k as int)),
                        self.accepted is None,
                        self.ready is None,
                        self.requested is None,
                        self.rejected is None,
                    decreases caps.len() - k,
                {
                    proof {
                        assert(caps@.take(k as int + 1).drop_last() =~= caps@.take(k as int));
                        assert(caps@.take(k as int + 1).last() == caps@[k as int]);
                    }
                    if let PowerProfile::FixedSupply(f) = caps[k] {
                        let _fit = catalog_push(&mut self.pdos, f);
                    }
                    k += 1;
                }
                proof {
                    assert(caps@.take(caps@.len() as int) =~= caps@);
                }
                match select_profile(caps) {
                    Option::Some((index, supply)) => {
                        self.requested = Some(index);
                        Ok(Reaction::IssueRequest(PowerRequest {
                            index,
                            current: current_ma(&supply),
                        }))
                    },
                    Option::None => Err(FatalError::NoFixedSupplyProfile),
                }
            },
            Event::PowerAccepted => {
                match self.requested {
                    Option::Some(i) => {
                        self.accepted = Some(i);
                        self.rejected = None;
                        self.ready = None;
                        self.requested = None;
                        Ok(Reaction::Nothing)
                    },
                    Option::None => Err(FatalError::AcceptedWithoutRequest),
                }
            },
            Event::PowerRejected => {
                match self.requested {
                    Option::Some(i) => {
                        self.rejected = Some(i);
                        self.accepted = None;
                        self.ready = None;
                        self.requested = None;
                        Ok(Reaction::Nothing)
                    },
                    Option::None => Err(FatalError::RejectedWithoutRequest),
                }
            },
            Event::PowerReady => {
                match self.accepted {
                    Option::Some(i) => {
                        self.ready = Some(i);
                        Ok(Reaction::Nothing)
                    },
                    Option::None => Err(FatalError::ReadyWithoutAccept),
                }
            },
            Event::VdmReceived(hdr, _payload) => {
                match dispatch_vdm(hdr) {
                    Ok(d) => Ok(Reaction::LogVdm(d)),
                    Err(e) => Err(e),
                }
            },
        }
    }
}

/// After an advertisement is processed, the catalog holds exactly the
/// advertised fixed-supply profiles, in their original order, up to the
/// capacity of 8, and of the four indices only `requested` is set, to the
/// selected index.
pub proof fn lemma_advertisement_outcome(
    pre: NegotiationStatus,
    post: NegotiationStatus,
    caps: Seq<PowerProfile>,
    r: Result<Reaction, FatalError>,
)
    requires
        capabilities_transition(pre, post, caps, r),
    ensures
        fixed_profiles(caps).len() <= 8 ==> post.catalog() == fixed_profiles(caps),
        fixed_profiles(caps).len() > 8 ==> post.catalog() == fixed_profiles(caps).take(8),
        post.accepted is None,
        post.ready is None,
        post.rejected is None,
        selected_index(caps) matches Some(i) ==> post.requested == Some(i as usize),
        selected_index(caps) is None ==> post.requested is None,
{
    lemma_catalog_is_fixed_prefix(caps);
}

/// A PowerAccepted event straight after a capability advertisement that
/// issued a request moves the selected index from `requested` to `accepted`
/// and leaves `requested`, `rejected` and `ready` unset.
pub proof fn lemma_accept_after_capabilities(
    s0: NegotiationStatus,
    s1: NegotiationStatus,
    s2: NegotiationStatus,
    caps: Seq<PowerProfile>,
    r1: Result<Reaction, FatalError>,
    r2: Result<Reaction, FatalError>,
)
    requires
        capabilities_transition(s0, s1, caps, r1),
        r1 is Ok,
        accept_transition(s1, s2, r2),
    ensures
        r2 == Ok::<Reaction, FatalError>(Reaction::Nothing),
        s1.requested is Some,
        s2.accepted == s1.requested,
        s2.requested is None,
        s2.rejected is None,
        s2.ready is None,
{
}

/// The symmetric law for PowerRejected: straight after an advertisement that
/// issued a request, it moves the selected index from `requested` to
/// `rejected` and leaves `requested`, `accepted` and `ready` unset.
pub proof fn lemma_reject_after_capabilities(
    s0: NegotiationStatus,
    s1: NegotiationStatus,
    s2: NegotiationStatus,
    caps: Seq<PowerProfile>,
    r1: Result<Reaction, FatalError>,
    r2: Result<Reaction, FatalError>,
)
    requires
        capabilities_transition(s0, s1, caps, r1),
        r1 is Ok,
        reject_transition(s1, s2, r2),
    ensures
        r2 == Ok::<Reaction, FatalError>(Reaction::Nothing),
        s1.requested is Some,
        s2.rejected == s1.requested,
        s2.requested is None,
        s2.accepted is None,
        s2.ready is None,
{
}

/// A PowerReady event straight after a successful PowerAccepted marks the
/// accepted index ready: `ready == accepted`, with `accepted` unchanged.
pub proof fn lemma_ready_after_accept(
    s0: NegotiationStatus,
    s1: NegotiationStatus,
    s2: NegotiationStatus,
    r1: Result<Reaction, FatalError>,
    r2: Result<Reaction, FatalError>,
)
    requires
        accept_transition(s0, s1, r1),
        r1 is Ok,
        ready_transition(s1, s2, r2),
    ensures
        r2 == Ok::<Reaction, FatalError>(Reaction::Nothing),
        s2.ready == s2.accepted,
        s2.accepted == s1.accepted,
        s2.ready is Some,
{
}

/// An advertisement with no fixed-supply entry (an empty set included) takes
/// the no-candidate fatal path and leaves the record fully reset.
pub proof fn lemma_no_candidate_is_fatal(
    pre: NegotiationStatus,
    post: NegotiationStatus,
    caps: Seq<PowerProfile>,
    r: Result<Reaction, FatalError>,
)
    requires
        capabilities_transition(pre, post, caps, r),
        forall|j: int| 0 <= j < caps.len() ==> !is_fixed(caps[j]),
    ensures
        r == Err::<Reaction, FatalError>(FatalError::NoFixedSupplyProfile),
        post.requested is None,
        post.accepted is None,
        post.ready is None,
        post.rejected is None,
        post.catalog() == Seq::<FixedSupply>::empty(),
{
    lemma_selected_index_characterization(caps);
    lemma_catalog_empty_without_fixed(caps);
}

} // verus!
