//! Error types for the FPGA SDK.
use vstd::prelude::*;

verus! {

/// Represents an error from this library.
#[derive(Clone, Copy, Debug, PartialEq, Eq, Structural)]
pub enum Error {
    /// The caller asked for a BAR that cannot be attached.
    InvalidBar,
    /// The SDK reported one of its documented failure codes.
    AwsSdkError(SdkError),
}

impl From<SdkError> for Error {
    fn from(e: SdkError) -> (r: Error)
        ensures
            r == Error::AwsSdkError(e),
    {
        Error::AwsSdkError(e)
    }
}

impl vstd::std_specs::convert::FromSpecImpl<SdkError> for Error {
    open spec fn obeys_from_spec() -> bool {
        true
    }

    open spec fn from_spec(e: SdkError) -> Error {
        Error::AwsSdkError(e)
    }
}

/// Represents an error returned by the AWS FPGA SDK.
///
/// Each variant stands for one documented nonzero status code.
#[derive(Clone, Copy, Debug, PartialEq, Eq, Structural)]
pub enum SdkError {
    AfiCommandBusy,
    AfiIdInvalid,
    AfiCommandApiVersionInvalid,
    ClIdMismatch,
    ClDdrCalibrationFailed,
    UnspecifiedError,
    ShellMismatch,
    PowerViolation,
    DramDataRetentionNotPossible,
    HardwareBusy,
    PciMissing,
    AfiCommandMalformed,
    DramDataRetentionFailed,
    DramDataRetentionSetupFailed,
    SoftwareProblem,
    Unresponsive,
}

/// Whether `c` is one of the status codes that the SDK documents as a failure.
pub open spec fn is_sdk_code(c: int) -> bool {
    c == 3 || c == 5 || (11 <= c <= 14) || (16 <= c <= 25)
}

impl SdkError {
    /// The SDK status code that this error stands for.
    pub open spec fn code_spec(self) -> u32 {
        match self {
            SdkError::AfiCommandBusy => 3,
            SdkError::AfiIdInvalid => 5,
            SdkError::AfiCommandApiVersionInvalid => 11,
            SdkError::ClIdMismatch => 12,
            SdkError::ClDdrCalibrationFailed => 13,
            SdkError::UnspecifiedError => 14,
            SdkError::ShellMismatch => 16,
            SdkError::PowerViolation => 17,
            SdkError::DramDataRetentionNotPossible => 18,
            SdkError::HardwareBusy => 19,
            SdkError::PciMissing => 20,
            SdkError::AfiCommandMalformed => 21,
            SdkError::DramDataRetentionFailed => 22,
            SdkError::DramDataRetentionSetupFailed => 23,
            SdkError::SoftwareProblem => 24,
            SdkError::Unresponsive => 25,
        }
    }

    /// The human-readable explanation of this error, as the SDK headers give it.
    pub open spec fn message_spec(self) -> Seq<char> {
        match self {
            SdkError::AfiCommandBusy => "AFI command is in-progress (busy)"@,
            SdkError::AfiIdInvalid => "Invalid AFI ID"@,
            SdkError::AfiCommandApiVersionInvalid => "Invalid AFI_CMD_API_VERSION, see afi_cmd_api.h"@,
            SdkError::ClIdMismatch => "CL PCI IDs did not match (e.g. between LF and CL reported values"@,
            SdkError::ClDdrCalibrationFailed => "CL DDR calibration failed"@,
            SdkError::UnspecifiedError => "generic/unspecified error"@,
            SdkError::ShellMismatch => "Not documented in AWS FPGA SDK"@,
            SdkError::PowerViolation => "Not documented in AWS FPGA SDK"@,
            SdkError::DramDataRetentionNotPossible => "In some cases it is possible to detect when data retention is not possible. This prevents the loss of data when retention cannot work."@,
            SdkError::HardwareBusy => "Not documented in AWS FPGA SDK"@,
            SdkError::PciMissing => "Unable to locate PCI devices/resources"@,
            SdkError::AfiCommandMalformed => "Not documented in AWS FPGA SDK"@,
            SdkError::DramDataRetentionFailed => "Data retention was attempted, but failed and data was lost. All efforts are made to avoid this condition."@,
            SdkError::DramDataRetentionSetupFailed => "Saving DDR control calibration failed and data retention will not be possible."@,
            SdkError::SoftwareProblem => "This error indicates a bug or unhandled external condition in the software. Report occurrences on github."@,
            SdkError::Unresponsive => "Cannot communicate with the FPGA"@,
        }
    }

    /// Looks up the error for a status code, or `None` where the SDK
    /// documents no such failure code (a defect of the caller or the SDK).
    pub fn try_from_code(code: u32) -> (r: Option<SdkError>)
        ensures
            r is None <==> !is_sdk_code(code as int),
            r matches Some(e) ==> e.code_spec() == code,
    {
        match code {
            3 => Some(SdkError::AfiCommandBusy),
            5 => Some(SdkError::AfiIdInvalid),
            11 => Some(SdkError::AfiCommandApiVersionInvalid),
            12 => Some(SdkError::ClIdMismatch),
            13 => Some(SdkError::ClDdrCalibrationFailed),
            14 => Some(SdkError::UnspecifiedError),
            16 => Some(SdkError::ShellMismatch),
            17 => Some(SdkError::PowerViolation),
            18 => Some(SdkError::DramDataRetentionNotPossible),
            19 => Some(SdkError::HardwareBusy),
            20 => Some(SdkError::PciMissing),
            21 => Some(SdkError::AfiCommandMalformed),
            22 => Some(SdkError::DramDataRetentionFailed),
            23 => Some(SdkError::DramDataRetentionSetupFailed),
            24 => Some(SdkError::SoftwareProblem),
            25 => Some(SdkError::Unresponsive),
            _ => None,
        }
    }

    /// The error for a documented status code.
    ///
    /// An undocumented code has no error: such a code is a defect, and the
    /// caller has to rule it out first (see `try_from_code`).
    pub fn from_code(code: u32) -> (r: SdkError)
        requires
            is_sdk_code(code as int),
        ensures
            r.code_spec() == code,
    {
        match SdkError::try_from_code(code) {
            Some(e) => e,
            None => {
                proof {
                    assert(false);
                }
                SdkError::UnspecifiedError
            },
        }
    }

    /// The SDK status code of this error.
    pub fn code(&self) -> (r: u32)
        ensures
            r == self.code_spec(),
    {
        match self {
            SdkError::AfiCommandBusy => 3,
            SdkError::AfiIdInvalid => 5,
            SdkError::AfiCommandApiVersionInvalid => 11,
            SdkError::ClIdMismatch => 12,
            SdkError::ClDdrCalibrationFailed => 13,
            SdkError::UnspecifiedError => 14,
            SdkError::ShellMismatch => 16,
            SdkError::PowerViolation => 17,
            SdkError::DramDataRetentionNotPossible => 18,
            SdkError::HardwareBusy => 19,
            SdkError::PciMissing => 20,
            SdkError::AfiCommandMalformed => 21,
            SdkError::DramDataRetentionFailed => 22,
            SdkError::DramDataRetentionSetupFailed => 23,
            SdkError::SoftwareProblem => 24,
            SdkError::Unresponsive => 25,
        }
    }

    /// The human-readable explanation of this error.
    pub fn message(&self) -> (r: &'static str)
        ensures
            r@ == self.message_spec(),
    {
        match self {
            SdkError::AfiCommandBusy => "AFI command is in-progress (busy)",
            SdkError::AfiIdInvalid => "Invalid AFI ID",
            SdkError::AfiCommandApiVersionInvalid => "Invalid AFI_CMD_API_VERSION, see afi_cmd_api.h",
            SdkError::ClIdMismatch => "CL PCI IDs did not match (e.g. between LF and CL reported values",
            SdkError::ClDdrCalibrationFailed => "CL DDR calibration failed",
            SdkError::UnspecifiedError => "generic/unspecified error",
            SdkError::ShellMismatch => "Not documented in AWS FPGA SDK",
            SdkError::PowerViolation => "Not documented in AWS FPGA SDK",
            SdkError::DramDataRetentionNotPossible => "In some cases it is possible to detect when data retention is not possible. This prevents the loss of data when retention cannot work.",
            SdkError::HardwareBusy => "Not documented in AWS FPGA SDK",
            SdkError::PciMissing => "Unable to locate PCI devices/resources",
            SdkError::AfiCommandMalformed => "Not documented in AWS FPGA SDK",
            SdkError::DramDataRetentionFailed => "Data retention was attempted, but failed and data was lost. All efforts are made to avoid this condition.",
            SdkError::DramDataRetentionSetupFailed => "Saving DDR control calibration failed and data retention will not be possible.",
            SdkError::SoftwareProblem => "This error indicates a bug or unhandled external condition in the software. Report occurrences on github.",
            SdkError::Unresponsive => "Cannot communicate with the FPGA",
        }
    }
}

/// The error catalogue is sound: every error stands for a documented code,
/// carries a non-empty explanation, and no two errors share a code, so the
/// lookup by code picks exactly one error for each documented code.
pub proof fn lemma_sdk_error_catalogue(e: SdkError, f: SdkError)
    ensures
        is_sdk_code(e.code_spec() as int),
        e.message_spec().len() > 0,
        e.code_spec() == f.code_spec() ==> e == f,
{
    reveal_strlit("AFI command is in-progress (busy)");
    reveal_strlit("Invalid AFI ID");
    reveal_strlit("Invalid AFI_CMD_API_VERSION, see afi_cmd_api.h");
    reveal_strlit("CL PCI IDs did not match (e.g. between LF and CL reported values");
    reveal_strlit("CL DDR calibration failed");
    reveal_strlit("generic/unspecified error");
    reveal_strlit("Not documented in AWS FPGA SDK");
    reveal_strlit("In some cases it is possible to detect when data retention is not possible. This prevents the loss of data when retention cannot work.");
    reveal_strlit("Unable to locate PCI devices/resources");
    reveal_strlit("Data retention was attempted, but failed and data was lost. All efforts are made to avoid this condition.");
    reveal_strlit("Saving DDR control calibration failed and data retention will not be possible.");
    reveal_strlit("This error indicates a bug or unhandled external condition in the software. Report occurrences on github.");
    reveal_strlit("Cannot communicate with the FPGA");
}

} // verus!
