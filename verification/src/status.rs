//! Protocol-level codes: operation identifiers, status codes, and printer
//! and job states, with their numeric wire values.

use vstd::prelude::*;

verus! {

/// Printer states of RFC 8011 section 5.4.11.
#[derive(Debug, Clone, Copy, PartialEq, Eq, Structural, Hash)]
pub enum PrinterState {
    Idle,
    Processing,
    Stopped,
}

impl PrinterState {
    /// The numeric value of this code.
    pub open spec fn spec_code(self) -> u8 {
        match self {
            PrinterState::Idle => 3,
            PrinterState::Processing => 4,
            PrinterState::Stopped => 5,
        }
    }

    /// The code a numeric value stands for, if any.
    pub open spec fn spec_from_code(code: u8) -> Option<Self> {
        if code == 3 {
            Some(PrinterState::Idle)
        } else if code == 4 {
            Some(PrinterState::Processing)
        } else if code == 5 {
            Some(PrinterState::Stopped)
        } else {
            None
        }
    }

    #[verifier::when_used_as_spec(spec_code)]
    pub fn code(self) -> (r: u8)
        ensures
            r == self.spec_code(),
    {
        match self {
            PrinterState::Idle => 3,
            PrinterState::Processing => 4,
            PrinterState::Stopped => 5,
        }
    }

    pub fn from_code(code: u8) -> (r: Option<Self>)
        ensures
            r == PrinterState::spec_from_code(code),
    {
        if code == 3 {
            Some(PrinterState::Idle)
        } else if code == 4 {
            Some(PrinterState::Processing)
        } else if code == 5 {
            Some(PrinterState::Stopped)
        } else {
            None
        }
    }

    /// Reading a code back from its numeric value recovers it.
    pub proof fn lemma_code_round_trip(self)
        ensures
            PrinterState::spec_from_code(self.spec_code()) == Some(self),
    {
    }
}

/// Job states of RFC 8011 section 5.3.7.
#[derive(Debug, Clone, Copy, PartialEq, Eq, Structural, Hash)]
pub enum JobState {
    Pending,
    PendingHeld,
    Processing,
    ProcessingStopped,
    Canceled,
    Aborted,
    Completed,
}

impl JobState {
    /// The numeric value of this code.
    pub open spec fn spec_code(self) -> u8 {
        match self {
            JobState::Pending => 3,
            JobState::PendingHeld => 4,
            JobState::Processing => 5,
            JobState::ProcessingStopped => 6,
            JobState::Canceled => 7,
            JobState::Aborted => 8,
            JobState::Completed => 9,
        }
    }

    /// The code a numeric value stands for, if any.
    pub open spec fn spec_from_code(code: u8) -> Option<Self> {
        if code == 3 {
            Some(JobState::Pending)
        } else if code == 4 {
            Some(JobState::PendingHeld)
        } else if code == 5 {
            Some(JobState::Processing)
        } else if code == 6 {
            Some(JobState::ProcessingStopped)
        } else if code == 7 {
            Some(JobState::Canceled)
        } else if code == 8 {
            Some(JobState::Aborted)
        } else if code == 9 {
            Some(JobState::Completed)
        } else {
            None
        }
    }

    #[verifier::when_used_as_spec(spec_code)]
    pub fn code(self) -> (r: u8)
        ensures
            r == self.spec_code(),
    {
        match self {
            JobState::Pending => 3,
            JobState::PendingHeld => 4,
            JobState::Processing => 5,
            JobState::ProcessingStopped => 6,
            JobState::Canceled => 7,
            JobState::Aborted => 8,
            JobState::Completed => 9,
        }
    }

    pub fn from_code(code: u8) -> (r: Option<Self>)
        ensures
            r == JobState::spec_from_code(code),
    {
        if code == 3 {
            Some(JobState::Pending)
        } else if code == 4 {
            Some(JobState::PendingHeld)
        } else if code == 5 {
            Some(JobState::Processing)
        } else if code == 6 {
            Some(JobState::ProcessingStopped)
        } else if code == 7 {
            Some(JobState::Canceled)
        } else if code == 8 {
            Some(JobState::Aborted)
        } else if code == 9 {
            Some(JobState::Completed)
        } else {
            None
        }
    }

    /// Reading a code back from its numeric value recovers it.
    pub proof fn lemma_code_round_trip(self)
        ensures
            JobState::spec_from_code(self.spec_code()) == Some(self),
    {
    }
}

/// Operation identifiers of RFC 8011 section 5.4.15.
#[derive(Debug, Clone, Copy, PartialEq, Eq, Structural, Hash)]
pub enum OperationID {
    PrintJob,
    PrintUri,
    ValidateJob,
    CreateJob,
    SendDocument,
    SendUri,
    CancelJob,
    GetJobAttributes,
    GetJobs,
    GetPrinterAttributes,
    HoldJob,
    ReleaseJob,
    RestartJob,
    PausePrinter,
    ResumePrinter,
    PurgeJobs,
}

impl OperationID {
    /// The numeric value of this code.
    pub open spec fn spec_code(self) -> u16 {
        match self {
            OperationID::PrintJob => 0x0002,
            OperationID::PrintUri => 0x0003,
            OperationID::ValidateJob => 0x0004,
            OperationID::CreateJob => 0x0005,
            OperationID::SendDocument => 0x0006,
            OperationID::SendUri => 0x0007,
            OperationID::CancelJob => 0x0008,
            OperationID::GetJobAttributes => 0x0009,
            OperationID::GetJobs => 0x000a,
            OperationID::GetPrinterAttributes => 0x000b,
            OperationID::HoldJob => 0x000c,
            OperationID::ReleaseJob => 0x000d,
            OperationID::RestartJob => 0x000e,
            OperationID::PausePrinter => 0x0010,
            OperationID::ResumePrinter => 0x0011,
            OperationID::PurgeJobs => 0x0012,
        }
    }

    /// The code a numeric value stands for, if any.
    pub open spec fn spec_from_code(code: u16) -> Option<Self> {
        if code == 0x0002 {
            Some(OperationID::PrintJob)
        } else if code == 0x0003 {
            Some(OperationID::PrintUri)
        } else if code == 0x0004 {
            Some(OperationID::ValidateJob)
        } else if code == 0x0005 {
            Some(OperationID::CreateJob)
        } else if code == 0x0006 {
            Some(OperationID::SendDocument)
        } else if code == 0x0007 {
            Some(OperationID::SendUri)
        } else if code == 0x0008 {
            Some(OperationID::CancelJob)
        } else if code == 0x0009 {
            Some(OperationID::GetJobAttributes)
        } else if code == 0x000a {
            Some(OperationID::GetJobs)
        } else if code == 0x000b {
            Some(OperationID::GetPrinterAttributes)
        } else if code == 0x000c {
            Some(OperationID::HoldJob)
        } else if code == 0x000d {
            Some(OperationID::ReleaseJob)
        } else if code == 0x000e {
            Some(OperationID::RestartJob)
        } else if code == 0x0010 {
            Some(OperationID::PausePrinter)
        } else if code == 0x0011 {
            Some(OperationID::ResumePrinter)
        } else if code == 0x0012 {
            Some(OperationID::PurgeJobs)
        } else {
            None
        }
    }

    #[verifier::when_used_as_spec(spec_code)]
    pub fn code(self) -> (r: u16)
        ensures
            r == self.spec_code(),
    {
        match self {
            OperationID::PrintJob => 0x0002,
            OperationID::PrintUri => 0x0003,
            OperationID::ValidateJob => 0x0004,
            OperationID::CreateJob => 0x0005,
            OperationID::SendDocument => 0x0006,
            OperationID::SendUri => 0x0007,
            OperationID::CancelJob => 0x0008,
            OperationID::GetJobAttributes => 0x0009,
            OperationID::GetJobs => 0x000a,
            OperationID::GetPrinterAttributes => 0x000b,
            OperationID::HoldJob => 0x000c,
            OperationID::ReleaseJob => 0x000d,
            OperationID::RestartJob => 0x000e,
            OperationID::PausePrinter => 0x0010,
            OperationID::ResumePrinter => 0x0011,
            OperationID::PurgeJobs => 0x0012,
        }
    }

    pub fn from_code(code: u16) -> (r: Option<Self>)
        ensures
            r == OperationID::spec_from_code(code),
    {
        if code == 0x0002 {
            Some(OperationID::PrintJob)
        } else if code == 0x0003 {
            Some(OperationID::PrintUri)
        } else if code == 0x0004 {
            Some(OperationID::ValidateJob)
        } else if code == 0x0005 {
            Some(OperationID::CreateJob)
        } else if code == 0x0006 {
            Some(OperationID::SendDocument)
        } else if code == 0x0007 {
            Some(OperationID::SendUri)
        } else if code == 0x0008 {
            Some(OperationID::CancelJob)
        } else if code == 0x0009 {
            Some(OperationID::GetJobAttributes)
        } else if code == 0x000a {
            Some(OperationID::GetJobs)
        } else if code == 0x000b {
            Some(OperationID::GetPrinterAttributes)
        } else if code == 0x000c {
            Some(OperationID::HoldJob)
        } else if code == 0x000d {
            Some(OperationID::ReleaseJob)
        } else if code == 0x000e {
            Some(OperationID::RestartJob)
        } else if code == 0x0010 {
            Some(OperationID::PausePrinter)
        } else if code == 0x0011 {
            Some(OperationID::ResumePrinter)
        } else if code == 0x0012 {
            Some(OperationID::PurgeJobs)
        } else {
            None
        }
    }

    /// Reading a code back from its numeric value recovers it.
    pub proof fn lemma_code_round_trip(self)
        ensures
            OperationID::spec_from_code(self.spec_code()) == Some(self),
    {
    }
}

/// Status codes of RFC 8011 appendix B.
#[derive(Debug, Clone, Copy, PartialEq, Eq, Structural, Hash)]
pub enum StatusCode {
    SuccessfulOk,
    SuccessfulOkIgnoredOrSubstitutedAttributes,
    SuccessfulOkConflictingAttributes,
    ClientErrorBadRequest,
    ClientErrorForbidden,
    ClientErrorNotAuthenticated,
    ClientErrorNotAuthorized,
    ClientErrorNotPossible,
    ClientErrorTimeout,
    ClientErrorNotFound,
    ClientErrorGone,
    ClientErrorRequestEntityTooLarge,
    ClientErrorRequestValueTooLong,
    ClientErrorDocumentFormatNotSupported,
    ClientErrorAttributesOrValuesNotSupported,
    ClientErrorUriSchemeNotSupported,
    ClientErrorCharsetNotSupported,
    ClientErrorConflictingAttributes,
    ClientErrorCompressionNotSupported,
    ClientErrorCompressionError,
    ClientErrorDocumentFormatError,
    ClientErrorDocumentAccessError,
    ServerErrorInternalError,
    ServerErrorOperationNotSupported,
    ServerErrorServiceUnavailable,
    ServerErrorVersionNotSupported,
    ServerErrorDeviceError,
    ServerErrorTemporaryError,
    ServerErrorNotAcceptingJobs,
    ServerErrorBusy,
    ServerErrorJobCanceled,
    ServerErrorMultipleDocumentJobsNotSupported,
    UnknownStatusCode,
}

impl StatusCode {
    /// The numeric value of this code.
    pub open spec fn spec_code(self) -> u16 {
        match self {
            StatusCode::SuccessfulOk => 0x0000,
            StatusCode::SuccessfulOkIgnoredOrSubstitutedAttributes => 0x0001,
            StatusCode::SuccessfulOkConflictingAttributes => 0x0002,
            StatusCode::ClientErrorBadRequest => 0x0400,
            StatusCode::ClientErrorForbidden => 0x0401,
            StatusCode::ClientErrorNotAuthenticated => 0x0402,
            StatusCode::ClientErrorNotAuthorized => 0x0403,
            StatusCode::ClientErrorNotPossible => 0x0404,
            StatusCode::ClientErrorTimeout => 0x0405,
            StatusCode::ClientErrorNotFound => 0x0406,
            StatusCode::ClientErrorGone => 0x0407,
            StatusCode::ClientErrorRequestEntityTooLarge => 0x0408,
            StatusCode::ClientErrorRequestValueTooLong => 0x0409,
            StatusCode::ClientErrorDocumentFormatNotSupported => 0x040a,
            StatusCode::ClientErrorAttributesOrValuesNotSupported => 0x040b,
            StatusCode::ClientErrorUriSchemeNotSupported => 0x040c,
            StatusCode::ClientErrorCharsetNotSupported => 0x040d,
            StatusCode::ClientErrorConflictingAttributes => 0x040e,
            StatusCode::ClientErrorCompressionNotSupported => 0x040f,
            StatusCode::ClientErrorCompressionError => 0x0410,
            StatusCode::ClientErrorDocumentFormatError => 0x0411,
            StatusCode::ClientErrorDocumentAccessError => 0x0412,
            StatusCode::ServerErrorInternalError => 0x0500,
            StatusCode::ServerErrorOperationNotSupported => 0x0501,
            StatusCode::ServerErrorServiceUnavailable => 0x0502,
            StatusCode::ServerErrorVersionNotSupported => 0x0503,
            StatusCode::ServerErrorDeviceError => 0x0504,
            StatusCode::ServerErrorTemporaryError => 0x0505,
            StatusCode::ServerErrorNotAcceptingJobs => 0x0506,
            StatusCode::ServerErrorBusy => 0x0507,
            StatusCode::ServerErrorJobCanceled => 0x0508,
            StatusCode::ServerErrorMultipleDocumentJobsNotSupported => 0x0509,
            StatusCode::UnknownStatusCode => 0xffff,
        }
    }

    /// The code a numeric value stands for, if any.
    pub open spec fn spec_from_code(code: u16) -> Option<Self> {
        if code == 0x0000 {
            Some(StatusCode::SuccessfulOk)
        } else if code == 0x0001 {
            Some(StatusCode::SuccessfulOkIgnoredOrSubstitutedAttributes)
        } else if code == 0x0002 {
            Some(StatusCode::SuccessfulOkConflictingAttributes)
        } else if code == 0x0400 {
            Some(StatusCode::ClientErrorBadRequest)
        } else if code == 0x0401 {
            Some(StatusCode::ClientErrorForbidden)
        } else if code == 0x0402 {
            Some(StatusCode::ClientErrorNotAuthenticated)
        } else if code == 0x0403 {
            Some(StatusCode::ClientErrorNotAuthorized)
        } else if code == 0x0404 {
            Some(StatusCode::ClientErrorNotPossible)
        } else if code == 0x0405 {
            Some(StatusCode::ClientErrorTimeout)
        } else if code == 0x0406 {
            Some(StatusCode::ClientErrorNotFound)
        } else if code == 0x0407 {
            Some(StatusCode::ClientErrorGone)
        } else if code == 0x0408 {
            Some(StatusCode::ClientErrorRequestEntityTooLarge)
        } else if code == 0x0409 {
            Some(StatusCode::ClientErrorRequestValueTooLong)
        } else if code == 0x040a {
            Some(StatusCode::ClientErrorDocumentFormatNotSupported)
        } else if code == 0x040b {
            Some(StatusCode::ClientErrorAttributesOrValuesNotSupported)
        } else if code == 0x040c {
            Some(StatusCode::ClientErrorUriSchemeNotSupported)
        } else if code == 0x040d {
            Some(StatusCode::ClientErrorCharsetNotSupported)
        } else if code == 0x040e {
            Some(StatusCode::ClientErrorConflictingAttributes)
        } else if code == 0x040f {
            Some(StatusCode::ClientErrorCompressionNotSupported)
        } else if code == 0x0410 {
            Some(StatusCode::ClientErrorCompressionError)
        } else if code == 0x0411 {
            Some(StatusCode::ClientErrorDocumentFormatError)
        } else if code == 0x0412 {
            Some(StatusCode::ClientErrorDocumentAccessError)
        } else if code == 0x0500 {
            Some(StatusCode::ServerErrorInternalError)
        } else if code == 0x0501 {
            Some(StatusCode::ServerErrorOperationNotSupported)
        } else if code == 0x0502 {
            Some(StatusCode::ServerErrorServiceUnavailable)
        } else if code == 0x0503 {
            Some(StatusCode::ServerErrorVersionNotSupported)
        } else if code == 0x0504 {
            Some(StatusCode::ServerErrorDeviceError)
        } else if code == 0x0505 {
            Some(StatusCode::ServerErrorTemporaryError)
        } else if code == 0x0506 {
            Some(StatusCode::ServerErrorNotAcceptingJobs)
        } else if code == 0x0507 {
            Some(StatusCode::ServerErrorBusy)
        } else if code == 0x0508 {
            Some(StatusCode::ServerErrorJobCanceled)
        } else if code == 0x0509 {
            Some(StatusCode::ServerErrorMultipleDocumentJobsNotSupported)
        } else if code == 0xffff {
            Some(StatusCode::UnknownStatusCode)
        } else {
            None
        }
    }

    #[verifier::when_used_as_spec(spec_code)]
    pub fn code(self) -> (r: u16)
        ensures
            r == self.spec_code(),
    {
        match self {
            StatusCode::SuccessfulOk => 0x0000,
            StatusCode::SuccessfulOkIgnoredOrSubstitutedAttributes => 0x0001,
            StatusCode::SuccessfulOkConflictingAttributes => 0x0002,
            StatusCode::ClientErrorBadRequest => 0x0400,
            StatusCode::ClientErrorForbidden => 0x0401,
            StatusCode::ClientErrorNotAuthenticated => 0x0402,
            StatusCode::ClientErrorNotAuthorized => 0x0403,
            StatusCode::ClientErrorNotPossible => 0x0404,
            StatusCode::ClientErrorTimeout => 0x0405,
            StatusCode::ClientErrorNotFound => 0x0406,
            StatusCode::ClientErrorGone => 0x0407,
            StatusCode::ClientErrorRequestEntityTooLarge => 0x0408,
            StatusCode::ClientErrorRequestValueTooLong => 0x0409,
            StatusCode::ClientErrorDocumentFormatNotSupported => 0x040a,
            StatusCode::ClientErrorAttributesOrValuesNotSupported => 0x040b,
            StatusCode::ClientErrorUriSchemeNotSupported => 0x040c,
            StatusCode::ClientErrorCharsetNotSupported => 0x040d,
            StatusCode::ClientErrorConflictingAttributes => 0x040e,
            StatusCode::ClientErrorCompressionNotSupported => 0x040f,
            StatusCode::ClientErrorCompressionError => 0x0410,
            StatusCode::ClientErrorDocumentFormatError => 0x0411,
            StatusCode::ClientErrorDocumentAccessError => 0x0412,
            StatusCode::ServerErrorInternalError => 0x0500,
            StatusCode::ServerErrorOperationNotSupported => 0x0501,
            StatusCode::ServerErrorServiceUnavailable => 0x0502,
            StatusCode::ServerErrorVersionNotSupported => 0x0503,
            StatusCode::ServerErrorDeviceError => 0x0504,
            StatusCode::ServerErrorTemporaryError => 0x0505,
            StatusCode::ServerErrorNotAcceptingJobs => 0x0506,
            StatusCode::ServerErrorBusy => 0x0507,
            StatusCode::ServerErrorJobCanceled => 0x0508,
            StatusCode::ServerErrorMultipleDocumentJobsNotSupported => 0x0509,
            StatusCode::UnknownStatusCode => 0xffff,
        }
    }

    pub fn from_code(code: u16) -> (r: Option<Self>)
        ensures
            r == StatusCode::spec_from_code(code),
    {
        if code == 0x0000 {
            Some(StatusCode::SuccessfulOk)
        } else if code == 0x0001 {
            Some(StatusCode::SuccessfulOkIgnoredOrSubstitutedAttributes)
        } else if code == 0x0002 {
            Some(StatusCode::SuccessfulOkConflictingAttributes)
        } else if code == 0x0400 {
            Some(StatusCode::ClientErrorBadRequest)
        } else if code == 0x0401 {
            Some(StatusCode::ClientErrorForbidden)
        } else if code == 0x0402 {
            Some(StatusCode::ClientErrorNotAuthenticated)
        } else if code == 0x0403 {
            Some(StatusCode::ClientErrorNotAuthorized)
        } else if code == 0x0404 {
            Some(StatusCode::ClientErrorNotPossible)
        } else if code == 0x0405 {
            Some(StatusCode::ClientErrorTimeout)
        } else if code == 0x0406 {
            Some(StatusCode::ClientErrorNotFound)
        } else if code == 0x0407 {
            Some(StatusCode::ClientErrorGone)
        } else if code == 0x0408 {
            Some(StatusCode::ClientErrorRequestEntityTooLarge)
        } else if code == 0x0409 {
            Some(StatusCode::ClientErrorRequestValueTooLong)
        } else if code == 0x040a {
            Some(StatusCode::ClientErrorDocumentFormatNotSupported)
        } else if code == 0x040b {
            Some(StatusCode::ClientErrorAttributesOrValuesNotSupported)
        } else if code == 0x040c {
            Some(StatusCode::ClientErrorUriSchemeNotSupported)
        } else if code == 0x040d {
            Some(StatusCode::ClientErrorCharsetNotSupported)
        } else if code == 0x040e {
            Some(StatusCode::ClientErrorConflictingAttributes)
        } else if code == 0x040f {
            Some(StatusCode::ClientErrorCompressionNotSupported)
        } else if code == 0x0410 {
            Some(StatusCode::ClientErrorCompressionError)
        } else if code == 0x0411 {
            Some(StatusCode::ClientErrorDocumentFormatError)
        } else if code == 0x0412 {
            Some(StatusCode::ClientErrorDocumentAccessError)
        } else if code == 0x0500 {
            Some(StatusCode::ServerErrorInternalError)
        } else if code == 0x0501 {
            Some(StatusCode::ServerErrorOperationNotSupported)
        } else if code == 0x0502 {
            Some(StatusCode::ServerErrorServiceUnavailable)
        } else if code == 0x0503 {
            Some(StatusCode::ServerErrorVersionNotSupported)
        } else if code == 0x0504 {
            Some(StatusCode::ServerErrorDeviceError)
        } else if code == 0x0505 {
            Some(StatusCode::ServerErrorTemporaryError)
        } else if code == 0x0506 {
            Some(StatusCode::ServerErrorNotAcceptingJobs)
        } else if code == 0x0507 {
            Some(StatusCode::ServerErrorBusy)
        } else if code == 0x0508 {
            Some(StatusCode::ServerErrorJobCanceled)
        } else if code == 0x0509 {
            Some(StatusCode::ServerErrorMultipleDocumentJobsNotSupported)
        } else if code == 0xffff {
            Some(StatusCode::UnknownStatusCode)
        } else {
            None
        }
    }

    /// Reading a code back from its numeric value recovers it.
    pub proof fn lemma_code_round_trip(self)
        ensures
            StatusCode::spec_from_code(self.spec_code()) == Some(self),
    {
    }
}

} // verus!
