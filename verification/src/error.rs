//! Errors of configuration and of transfers.

use vstd::prelude::*;

verus! {

/// Why an acknowledge check failed.
///
/// This is a hint. Handle every case.
#[derive(Debug, Clone, Copy, PartialEq, Eq, Hash, Structural)]
pub enum AcknowledgeCheckFailedReason {
    /// The device did not acknowledge its address. The device may be missing.
    Address,
    /// The device did not acknowledge the data. It may not be ready to
    /// process requests at the moment.
    Data,
    /// Either the device did not acknowledge its address or the data, but it
    /// is unknown which.
    Unknown,
}

/// Errors of a transfer.
#[derive(Debug, Clone, Copy, PartialEq, Eq, Hash, Structural)]
pub enum Error {
    /// The transmission exceeded the FIFO size.
    FifoExceeded,
    /// The acknowledgment check failed.
    AcknowledgeCheckFailed(AcknowledgeCheckFailedReason),
    /// A timeout occurred during transmission.
    Timeout,
    /// The arbitration for the bus was lost.
    ArbitrationLost,
    /// The execution of the I2C command was incomplete.
    ExecutionIncomplete,
    /// The number of commands issued exceeded the limit.
    CommandNumberExceeded,
    /// Zero length read or write operation.
    ZeroLengthInvalid,
}

/// Errors of a configuration.
#[derive(Debug, Clone, Copy, PartialEq, Eq, Hash, Structural)]
pub enum ConfigError {
    /// Provided bus frequency is invalid for the current configuration.
    FrequencyInvalid,
    /// Provided timeout is invalid for the current configuration.
    TimeoutInvalid,
}

/// Which byte went unacknowledged, in the vocabulary shared by I2C drivers.
#[derive(Debug, Clone, Copy, PartialEq, Eq, Hash, Structural)]
pub enum NoAcknowledgeSource {
    Address,
    Data,
    Unknown,
}

/// Class of a transfer error, in the vocabulary shared by I2C drivers.
#[derive(Debug, Clone, Copy, PartialEq, Eq, Hash, Structural)]
pub enum ErrorKind {
    Bus,
    ArbitrationLoss,
    NoAcknowledge(NoAcknowledgeSource),
    Overrun,
    Other,
}

impl AcknowledgeCheckFailedReason {
    /// The reason as text.
    pub fn message(&self) -> (text: &'static str)
        ensures
            text@ == match *self {
                AcknowledgeCheckFailedReason::Address => "Address"@,
                AcknowledgeCheckFailedReason::Data => "Data"@,
                AcknowledgeCheckFailedReason::Unknown => "Unknown"@,
            },
    {
        match self {
            AcknowledgeCheckFailedReason::Address => "Address",
            AcknowledgeCheckFailedReason::Data => "Data",
            AcknowledgeCheckFailedReason::Unknown => "Unknown",
        }
    }

    pub open spec fn spec_source(&self) -> NoAcknowledgeSource {
        match *self {
            AcknowledgeCheckFailedReason::Address => NoAcknowledgeSource::Address,
            AcknowledgeCheckFailedReason::Data => NoAcknowledgeSource::Data,
            AcknowledgeCheckFailedReason::Unknown => NoAcknowledgeSource::Unknown,
        }
    }

    /// The reason in the shared vocabulary.
    #[verifier::when_used_as_spec(spec_source)]
    pub fn source(&self) -> (source: NoAcknowledgeSource)
        ensures
            source == self.spec_source(),
    {
        match self {
            AcknowledgeCheckFailedReason::Address => NoAcknowledgeSource::Address,
            AcknowledgeCheckFailedReason::Data => NoAcknowledgeSource::Data,
            AcknowledgeCheckFailedReason::Unknown => NoAcknowledgeSource::Unknown,
        }
    }
}

impl Error {
    /// The error as a sentence.
    pub fn message(&self) -> (text: &'static str)
        ensures
            text@ == match *self {
                Error::FifoExceeded => "The transmission exceeded the FIFO size"@,
                Error::AcknowledgeCheckFailed(AcknowledgeCheckFailedReason::Address) =>
                    "The acknowledgment check failed. Reason: Address"@,
                Error::AcknowledgeCheckFailed(AcknowledgeCheckFailedReason::Data) =>
                    "The acknowledgment check failed. Reason: Data"@,
                Error::AcknowledgeCheckFailed(AcknowledgeCheckFailedReason::Unknown) =>
                    "The acknowledgment check failed. Reason: Unknown"@,
                Error::Timeout => "A timeout occurred during transmission"@,
                Error::ArbitrationLost => "The arbitration for the bus was lost"@,
                Error::ExecutionIncomplete => "The execution of the I2C command was incomplete"@,
                Error::CommandNumberExceeded =>
                    "The number of commands issued exceeded the limit"@,
                Error::ZeroLengthInvalid => "Zero length read or write operation"@,
            },
    {
        match self {
            Error::FifoExceeded => "The transmission exceeded the FIFO size",
            Error::AcknowledgeCheckFailed(AcknowledgeCheckFailedReason::Address) => {
                "The acknowledgment check failed. Reason: Address"
            },
            Error::AcknowledgeCheckFailed(AcknowledgeCheckFailedReason::Data) => {
                "The acknowledgment check failed. Reason: Data"
            },
            Error::AcknowledgeCheckFailed(AcknowledgeCheckFailedReason::Unknown) => {
                "The acknowledgment check failed. Reason: Unknown"
            },
            Error::Timeout => "A timeout occurred during transmission",
            Error::ArbitrationLost => "The arbitration for the bus was lost",
            Error::ExecutionIncomplete => "The execution of the I2C command was incomplete",
            Error::CommandNumberExceeded => "The number of commands issued exceeded the limit",
            Error::ZeroLengthInvalid => "Zero length read or write operation",
        }
    }

    pub open spec fn spec_kind(&self) -> ErrorKind {
        match *self {
            Error::FifoExceeded => ErrorKind::Overrun,
            Error::ArbitrationLost => ErrorKind::ArbitrationLoss,
            Error::AcknowledgeCheckFailed(reason) => ErrorKind::NoAcknowledge(reason.source()),
            _ => ErrorKind::Other,
        }
    }

    /// The class of the error in the shared vocabulary.
    #[verifier::when_used_as_spec(spec_kind)]
    pub fn kind(&self) -> (kind: ErrorKind)
        ensures
            kind == self.spec_kind(),
    {
        match self {
            Error::FifoExceeded => ErrorKind::Overrun,
            Error::ArbitrationLost => ErrorKind::ArbitrationLoss,
            Error::AcknowledgeCheckFailed(reason) => ErrorKind::NoAcknowledge(reason.source()),
            _ => ErrorKind::Other,
        }
    }
}

impl ConfigError {
    /// The error as a sentence.
    pub fn message(&self) -> (text: &'static str)
        ensures
            text@ == match *self {
                ConfigError::FrequencyInvalid =>
                    "Provided bus frequency is invalid for the current configuration"@,
                ConfigError::TimeoutInvalid =>
                    "Provided timeout is invalid for the current configuration"@,
            },
    {
        match self {
            ConfigError::FrequencyInvalid => {
                "Provided bus frequency is invalid for the current configuration"
            },
            ConfigError::TimeoutInvalid => {
                "Provided timeout is invalid for the current configuration"
            },
        }
    }
}

} // verus!
