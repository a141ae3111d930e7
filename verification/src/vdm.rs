use vstd::prelude::*;

verus! {

/// The command of a structured vendor-defined message.
#[derive(Clone, Copy, PartialEq, Eq, Structural, Debug)]
pub enum VdmCommand {
    DiscoverIdentity,
    DiscoverSvids,
    DiscoverModes,
    EnterMode,
    ExitMode,
    Attention,
    DisplayPortStatus,
    DisplayPortConfig,
}

/// The command type of a structured vendor-defined message: who is speaking
/// and how the peer answered.
#[derive(Clone, Copy, PartialEq, Eq, Structural, Debug)]
pub enum VdmCommandType {
    InitiatorReq,
    ResponderAck,
    ResponderNak,
    ResponderBusy,
}

/// The header of a received vendor-defined message.
#[derive(Clone, Copy, PartialEq, Eq, Structural, Debug)]
pub enum VdmHeader {
    Structured { command: VdmCommand, command_type: VdmCommandType, object_position: u8 },
    Unstructured { data: u16 },
}

/// What dispatching a vendor-defined message decides. None of these mutates
/// the negotiation status; they only tell the caller what to log.
#[derive(Clone, Copy, PartialEq, Eq, Structural, Debug)]
pub enum VdmDisposition {
    /// A peer's DiscoverIdentity request: the one command this core notes a
    /// response intent for.
    DiscoverIdentityNoted,
    /// Any other recognized initiator request: accepted, no reaction yet.
    Recognized,
    /// An unstructured message: its raw payload is only logged.
    UnstructuredLogged,
}

/// An unrecoverable condition: either the protocol engine broke its event
/// ordering contract, the advertisement offered nothing this sink can
/// request, or a structured message arrived that no responder path handles.
/// The caller is expected to abort rather than recover.
#[derive(Clone, Copy, PartialEq, Eq, Structural, Debug)]
pub enum FatalError {
    AcceptedWithoutRequest,
    RejectedWithoutRequest,
    ReadyWithoutAccept,
    NoFixedSupplyProfile,
    UnhandledVdmCommandType,
}

/// What dispatching a vendor-defined message must yield: structured messages
/// are handled only as initiator requests, any other command type is fatal;
/// unstructured messages are logged and otherwise ignored.
pub open spec fn vdm_disposition_of(hdr: VdmHeader) -> Result<VdmDisposition, FatalError> {
    match hdr {
        VdmHeader::Unstructured { .. } => Ok(VdmDisposition::UnstructuredLogged),
        VdmHeader::Structured { command, command_type, .. } => {
            if command_type != VdmCommandType::InitiatorReq {
                Err(FatalError::UnhandledVdmCommandType)
            } else if command == VdmCommand::DiscoverIdentity {
                Ok(VdmDisposition::DiscoverIdentityNoted)
            } else {
                Ok(VdmDisposition::Recognized)
            }
        },
    }
}

/// Dispatches a received vendor-defined message. Never touches the
/// negotiation status; an unhandled structured command type is fatal.
pub fn dispatch_vdm(hdr: &VdmHeader) -> (r: Result<VdmDisposition, FatalError>)
    ensures
        r == vdm_disposition_of(*hdr),
{
    match hdr {
        VdmHeader::Structured { command, command_type, object_position: _ } => {
            match command_type {
                VdmCommandType::InitiatorReq => {
                    match command {
                        VdmCommand::DiscoverIdentity => Ok(VdmDisposition::DiscoverIdentityNoted),
                        VdmCommand::DiscoverSvids => Ok(VdmDisposition::Recognized),
                        VdmCommand::DiscoverModes => Ok(VdmDisposition::Recognized),
                        VdmCommand::EnterMode => Ok(VdmDisposition::Recognized),
                        VdmCommand::ExitMode => Ok(VdmDisposition::Recognized),
                        VdmCommand::Attention => Ok(VdmDisposition::Recognized),
                        VdmCommand::DisplayPortStatus => Ok(VdmDisposition::Recognized),
                        VdmCommand::DisplayPortConfig => Ok(VdmDisposition::Recognized),
                    }
                },
                _ => Err(FatalError::UnhandledVdmCommandType),
            }
        },
        VdmHeader::Unstructured { data: _ } => Ok(VdmDisposition::UnstructuredLogged),
    }
}

} // verus!
