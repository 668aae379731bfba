use vstd::prelude::*;

use crate::errors::AeronCError;

verus! {

/// The system counters of the Aeron media driver, in type-id order.
#[derive(Debug, Copy, Clone, Hash, PartialEq, Eq, Structural)]
pub enum AeronSystemCounterType {
    /// Running total of bytes sent for data over UDP, excluding IP headers.
    BytesSent,
    /// Running total of bytes received for data over UDP, excluding IP headers.
    BytesReceived,
    /// Failed offers to the receiver proxy suggesting back-pressure.
    ReceiverProxyFails,
    /// Failed offers to the sender proxy suggesting back-pressure.
    SenderProxyFails,
    /// Failed offers to the driver conductor proxy suggesting back-pressure.
    ConductorProxyFails,
    /// Count of NAKs sent back to senders requesting re-transmits.
    NakMessagesSent,
    /// Count of NAKs received from receivers requesting re-transmits.
    NakMessagesReceived,
    /// Count of status messages sent back to senders for flow control.
    StatusMessagesSent,
    /// Count of status messages received from receivers for flow control.
    StatusMessagesReceived,
    /// Count of heartbeat data frames sent to indicate liveness in the absence of data to send.
    HeartbeatsSent,
    /// Count of heartbeat data frames received to indicate liveness in the absence of data to send.
    HeartbeatsReceived,
    /// Count of data packets re-transmitted as a result of NAKs.
    RetransmitsSent,
    /// Count of packets received which under-run the current flow control window for images.
    FlowControlUnderRuns,
    /// Count of packets received which over-run the current flow control window for images.
    FlowControlOverRuns,
    /// Count of invalid packets received.
    InvalidPackets,
    /// Count of errors observed by the driver and an indication to read the distinct error log.
    Errors,
    /// Count of socket send operations which resulted in less than the packet length being sent.
    ShortSends,
    /// Count of attempts to free log buffers no longer required by the driver that are still held by clients.
    FreeFails,
    /// Count of the times a sender has entered the state of being back-pressured when it could have sent faster.
    SenderFlowControlLimits,
    /// Count of the times a publication has been unblocked after a client failed to complete an offer within a timeout.
    UnblockedPublications,
    /// Count of the times a command has been unblocked after a client failed to complete an offer within a timeout.
    UnblockedCommands,
    /// Count of the times the channel endpoint detected a possible TTL asymmetry between its config and a new connection.
    PossibleTtlAsymmetry,
    /// Current status of the ControllableIdleStrategy if configured.
    ControllableIdleStrategy,
    /// Count of the times a loss gap has been filled when NAKs have been disabled.
    LossGapFills,
    /// Count of the Aeron clients that have timed out without a graceful close.
    ClientTimeouts,
    /// Count of the times a connection endpoint has been re-resolved resulting in a change.
    ResolutionChanges,
    /// The maximum time spent by the conductor between work cycles.
    ConductorMaxCycleTime,
    /// Count of the number of times the cycle time threshold has been exceeded by the conductor in its work cycle.
    ConductorCycleTimeThresholdExceeded,
    /// The maximum time spent by the sender between work cycles.
    SenderMaxCycleTime,
    /// Count of the number of times the cycle time threshold has been exceeded by the sender in its work cycle.
    SenderCycleTimeThresholdExceeded,
    /// The maximum time spent by the receiver between work cycles.
    ReceiverMaxCycleTime,
    /// Count of the number of times the cycle time threshold has been exceeded by the receiver in its work cycle.
    ReceiverCycleTimeThresholdExceeded,
    /// The maximum time spent by the NameResolver in one of its operations.
    NameResolverMaxTime,
    /// Count of the number of times the time threshold has been exceeded by the NameResolver.
    NameResolverTimeThresholdExceeded,
    /// The version of the media driver.
    AeronVersion,
    /// The total number of bytes currently mapped in log buffers, the CnC file, and the loss report.
    BytesCurrentlyMapped,
    /// A minimum bound on the number of bytes re-transmitted as a result of NAKs.\n///\n/// MDC retransmits are only counted once; therefore, this is a minimum bound rather than the actual number\n/// of retransmitted bytes. Note that retransmitted bytes are not included in the `BytesSent` counter value.
    RetransmittedBytes,
    /// A count of the number of times that the retransmit pool has been overflowed.
    RetransmitOverflow,
    /// A count of the number of error frames received by this driver.
    ErrorFramesReceived,
    /// A count of the number of error frames sent by this driver.
    ErrorFramesSent,
    DummyLast,
}

/// The type id of each counter: its position in declaration order.
pub open spec fn spec_counter_id(t: AeronSystemCounterType) -> int {
    match t {
        AeronSystemCounterType::BytesSent => 0,
        AeronSystemCounterType::BytesReceived => 1,
        AeronSystemCounterType::ReceiverProxyFails => 2,
        AeronSystemCounterType::SenderProxyFails => 3,
        AeronSystemCounterType::ConductorProxyFails => 4,
        AeronSystemCounterType::NakMessagesSent => 5,
        AeronSystemCounterType::NakMessagesReceived => 6,
        AeronSystemCounterType::StatusMessagesSent => 7,
        AeronSystemCounterType::StatusMessagesReceived => 8,
        AeronSystemCounterType::HeartbeatsSent => 9,
        AeronSystemCounterType::HeartbeatsReceived => 10,
        AeronSystemCounterType::RetransmitsSent => 11,
        AeronSystemCounterType::FlowControlUnderRuns => 12,
        AeronSystemCounterType::FlowControlOverRuns => 13,
        AeronSystemCounterType::InvalidPackets => 14,
        AeronSystemCounterType::Errors => 15,
        AeronSystemCounterType::ShortSends => 16,
        AeronSystemCounterType::FreeFails => 17,
        AeronSystemCounterType::SenderFlowControlLimits => 18,
        AeronSystemCounterType::UnblockedPublications => 19,
        AeronSystemCounterType::UnblockedCommands => 20,
        AeronSystemCounterType::PossibleTtlAsymmetry => 21,
        AeronSystemCounterType::ControllableIdleStrategy => 22,
        AeronSystemCounterType::LossGapFills => 23,
        AeronSystemCounterType::ClientTimeouts => 24,
        AeronSystemCounterType::ResolutionChanges => 25,
        AeronSystemCounterType::ConductorMaxCycleTime => 26,
        AeronSystemCounterType::ConductorCycleTimeThresholdExceeded => 27,
        AeronSystemCounterType::SenderMaxCycleTime => 28,
        AeronSystemCounterType::SenderCycleTimeThresholdExceeded => 29,
        AeronSystemCounterType::ReceiverMaxCycleTime => 30,
        AeronSystemCounterType::ReceiverCycleTimeThresholdExceeded => 31,
        AeronSystemCounterType::NameResolverMaxTime => 32,
        AeronSystemCounterType::NameResolverTimeThresholdExceeded => 33,
        AeronSystemCounterType::AeronVersion => 34,
        AeronSystemCounterType::BytesCurrentlyMapped => 35,
        AeronSystemCounterType::RetransmittedBytes => 36,
        AeronSystemCounterType::RetransmitOverflow => 37,
        AeronSystemCounterType::ErrorFramesReceived => 38,
        AeronSystemCounterType::ErrorFramesSent => 39,
        AeronSystemCounterType::DummyLast => 40,
    }
}

impl AeronSystemCounterType {
    /// The counter type id of this counter.
    pub fn as_u32(&self) -> (r: u32)
        ensures
            r == spec_counter_id(*self),
    {
        match self {
            AeronSystemCounterType::BytesSent => 0,
            AeronSystemCounterType::BytesReceived => 1,
            AeronSystemCounterType::ReceiverProxyFails => 2,
            AeronSystemCounterType::SenderProxyFails => 3,
            AeronSystemCounterType::ConductorProxyFails => 4,
            AeronSystemCounterType::NakMessagesSent => 5,
            AeronSystemCounterType::NakMessagesReceived => 6,
            AeronSystemCounterType::StatusMessagesSent => 7,
            AeronSystemCounterType::StatusMessagesReceived => 8,
            AeronSystemCounterType::HeartbeatsSent => 9,
            AeronSystemCounterType::HeartbeatsReceived => 10,
            AeronSystemCounterType::RetransmitsSent => 11,
            AeronSystemCounterType::FlowControlUnderRuns => 12,
            AeronSystemCounterType::FlowControlOverRuns => 13,
            AeronSystemCounterType::InvalidPackets => 14,
            AeronSystemCounterType::Errors => 15,
            AeronSystemCounterType::ShortSends => 16,
            AeronSystemCounterType::FreeFails => 17,
            AeronSystemCounterType::SenderFlowControlLimits => 18,
            AeronSystemCounterType::UnblockedPublications => 19,
            AeronSystemCounterType::UnblockedCommands => 20,
            AeronSystemCounterType::PossibleTtlAsymmetry => 21,
            AeronSystemCounterType::ControllableIdleStrategy => 22,
            AeronSystemCounterType::LossGapFills => 23,
            AeronSystemCounterType::ClientTimeouts => 24,
            AeronSystemCounterType::ResolutionChanges => 25,
            AeronSystemCounterType::ConductorMaxCycleTime => 26,
            AeronSystemCounterType::ConductorCycleTimeThresholdExceeded => 27,
            AeronSystemCounterType::SenderMaxCycleTime => 28,
            AeronSystemCounterType::SenderCycleTimeThresholdExceeded => 29,
            AeronSystemCounterType::ReceiverMaxCycleTime => 30,
            AeronSystemCounterType::ReceiverCycleTimeThresholdExceeded => 31,
            AeronSystemCounterType::NameResolverMaxTime => 32,
            AeronSystemCounterType::NameResolverTimeThresholdExceeded => 33,
            AeronSystemCounterType::AeronVersion => 34,
            AeronSystemCounterType::BytesCurrentlyMapped => 35,
            AeronSystemCounterType::RetransmittedBytes => 36,
            AeronSystemCounterType::RetransmitOverflow => 37,
            AeronSystemCounterType::ErrorFramesReceived => 38,
            AeronSystemCounterType::ErrorFramesSent => 39,
            AeronSystemCounterType::DummyLast => 40,
        }
    }

    /// Converts a counter type id: negative values are Aeron error codes, ids
    /// `0..=40` name a counter, and any larger id is a generic error.
    pub fn try_from(value: i32) -> (r: Result<AeronSystemCounterType, AeronCError>)
        ensures
            value < 0 ==> r == Err::<AeronSystemCounterType, AeronCError>(AeronCError { code: value }),
            0 <= value <= 40 ==> (r matches Ok(t) && spec_counter_id(t) == value),
            value > 40 ==> r == Err::<AeronSystemCounterType, AeronCError>(AeronCError { code: -1i32 }),
    {
        if value < 0 {
            return Err(AeronCError::from_code(value));
        }
        match value {
            0 => Ok(AeronSystemCounterType::BytesSent),
            1 => Ok(AeronSystemCounterType::BytesReceived),
            2 => Ok(AeronSystemCounterType::ReceiverProxyFails),
            3 => Ok(AeronSystemCounterType::SenderProxyFails),
            4 => Ok(AeronSystemCounterType::ConductorProxyFails),
            5 => Ok(AeronSystemCounterType::NakMessagesSent),
            6 => Ok(AeronSystemCounterType::NakMessagesReceived),
            7 => Ok(AeronSystemCounterType::StatusMessagesSent),
            8 => Ok(AeronSystemCounterType::StatusMessagesReceived),
            9 => Ok(AeronSystemCounterType::HeartbeatsSent),
            10 => Ok(AeronSystemCounterType::HeartbeatsReceived),
            11 => Ok(AeronSystemCounterType::RetransmitsSent),
            12 => Ok(AeronSystemCounterType::FlowControlUnderRuns),
            13 => Ok(AeronSystemCounterType::FlowControlOverRuns),
            14 => Ok(AeronSystemCounterType::InvalidPackets),
            15 => Ok(AeronSystemCounterType::Errors),
            16 => Ok(AeronSystemCounterType::ShortSends),
            17 => Ok(AeronSystemCounterType::FreeFails),
            18 => Ok(AeronSystemCounterType::SenderFlowControlLimits),
            19 => Ok(AeronSystemCounterType::UnblockedPublications),
            20 => Ok(AeronSystemCounterType::UnblockedCommands),
            21 => Ok(AeronSystemCounterType::PossibleTtlAsymmetry),
            22 => Ok(AeronSystemCounterType::ControllableIdleStrategy),
            23 => Ok(AeronSystemCounterType::LossGapFills),
            24 => Ok(AeronSystemCounterType::ClientTimeouts),
            25 => Ok(AeronSystemCounterType::ResolutionChanges),
            26 => Ok(AeronSystemCounterType::ConductorMaxCycleTime),
            27 => Ok(AeronSystemCounterType::ConductorCycleTimeThresholdExceeded),
            28 => Ok(AeronSystemCounterType::SenderMaxCycleTime),
            29 => Ok(AeronSystemCounterType::SenderCycleTimeThresholdExceeded),
            30 => Ok(AeronSystemCounterType::ReceiverMaxCycleTime),
            31 => Ok(AeronSystemCounterType::ReceiverCycleTimeThresholdExceeded),
            32 => Ok(AeronSystemCounterType::NameResolverMaxTime),
            33 => Ok(AeronSystemCounterType::NameResolverTimeThresholdExceeded),
            34 => Ok(AeronSystemCounterType::AeronVersion),
            35 => Ok(AeronSystemCounterType::BytesCurrentlyMapped),
            36 => Ok(AeronSystemCounterType::RetransmittedBytes),
            37 => Ok(AeronSystemCounterType::RetransmitOverflow),
            38 => Ok(AeronSystemCounterType::ErrorFramesReceived),
            39 => Ok(AeronSystemCounterType::ErrorFramesSent),
            40 => Ok(AeronSystemCounterType::DummyLast),
            _ => Err(AeronCError::from_code(-1)),
        }
    }
}

/// Distinct counters have distinct type ids.
pub proof fn lemma_counter_id_injective(a: AeronSystemCounterType, b: AeronSystemCounterType)
    ensures
        spec_counter_id(a) == spec_counter_id(b) ==> a == b,
{
}

/// Every counter id lies in `0..=40`.
pub proof fn lemma_counter_id_range(a: AeronSystemCounterType)
    ensures
        0 <= spec_counter_id(a) <= 40,
{
}

} // verus!
