use vstd::prelude::*;

verus! {

/// The bit that marks a status code as an error.
pub const ERROR_BIT: u64 = 0x8000_0000_0000_0000;

/// Outcome code returned by every firmware service.
///
/// `Success` is the only outcome on which an operation goes ahead; every other
/// code, including warnings and codes this crate has no name for, is handed to
/// the caller as a failure, unchanged.
#[derive(Clone, Copy, Debug, PartialEq, Eq, Structural)]
pub enum Status {
    Success,
    WarnUnknownGlyph,
    WarnDeleteFailure,
    WarnWriteFailure,
    WarnBufferTooSmall,
    WarnStaleData,
    LoadError,
    InvalidParameter,
    Unsupported,
    BadBufferSize,
    BufferTooSmall,
    NotReady,
    DeviceError,
    WriteProtected,
    OutOfResources,
    VolumeCorrupted,
    VolumeFull,
    NoMedia,
    MediaChanged,
    NotFound,
    AccessDenied,
    NoResponse,
    NoMapping,
    Timeout,
    NotStarted,
    AlreadyStarted,
    Aborted,
    IcmpError,
    TftpError,
    ProtocolError,
    IncompatibleVersion,
    SecurityViolation,
    CrcError,
    EndOfMedia,
    EndOfFile,
    InvalidLanguage,
    CompromisedData,
    /// A code with no name here, kept as the firmware reported it.
    Unknown(u64),
}

/// The named status for a raw code, if there is one.
pub open spec fn named_status(code: u64) -> Option<Status> {
    if code == 0 { Some(Status::Success) }
    else if code == 1 { Some(Status::WarnUnknownGlyph) }
    else if code == 2 { Some(Status::WarnDeleteFailure) }
    else if code == 3 { Some(Status::WarnWriteFailure) }
    else if code == 4 { Some(Status::WarnBufferTooSmall) }
    else if code == 5 { Some(Status::WarnStaleData) }
    else if code == ERROR_BIT + 1 { Some(Status::LoadError) }
    else if code == ERROR_BIT + 2 { Some(Status::InvalidParameter) }
    else if code == ERROR_BIT + 3 { Some(Status::Unsupported) }
    else if code == ERROR_BIT + 4 { Some(Status::BadBufferSize) }
    else if code == ERROR_BIT + 5 { Some(Status::BufferTooSmall) }
    else if code == ERROR_BIT + 6 { Some(Status::NotReady) }
    else if code == ERROR_BIT + 7 { Some(Status::DeviceError) }
    else if code == ERROR_BIT + 8 { Some(Status::WriteProtected) }
    else if code == ERROR_BIT + 9 { Some(Status::OutOfResources) }
    else if code == ERROR_BIT + 10 { Some(Status::VolumeCorrupted) }
    else if code == ERROR_BIT + 11 { Some(Status::VolumeFull) }
    else if code == ERROR_BIT + 12 { Some(Status::NoMedia) }
    else if code == ERROR_BIT + 13 { Some(Status::MediaChanged) }
    else if code == ERROR_BIT + 14 { Some(Status::NotFound) }
    else if code == ERROR_BIT + 15 { Some(Status::AccessDenied) }
    else if code == ERROR_BIT + 16 { Some(Status::NoResponse) }
    else if code == ERROR_BIT + 17 { Some(Status::NoMapping) }
    else if code == ERROR_BIT + 18 { Some(Status::Timeout) }
    else if code == ERROR_BIT + 19 { Some(Status::NotStarted) }
    else if code == ERROR_BIT + 20 { Some(Status::AlreadyStarted) }
    else if code == ERROR_BIT + 21 { Some(Status::Aborted) }
    else if code == ERROR_BIT + 22 { Some(Status::IcmpError) }
    else if code == ERROR_BIT + 23 { Some(Status::TftpError) }
    else if code == ERROR_BIT + 24 { Some(Status::ProtocolError) }
    else if code == ERROR_BIT + 25 { Some(Status::IncompatibleVersion) }
    else if code == ERROR_BIT + 26 { Some(Status::SecurityViolation) }
    else if code == ERROR_BIT + 27 { Some(Status::CrcError) }
    else if code == ERROR_BIT + 28 { Some(Status::EndOfMedia) }
    else if code == ERROR_BIT + 31 { Some(Status::EndOfFile) }
    else if code == ERROR_BIT + 32 { Some(Status::InvalidLanguage) }
    else if code == ERROR_BIT + 33 { Some(Status::CompromisedData) }
    else { None }
}

impl Status {
    /// The raw code of this status.
    pub open spec fn spec_code(self) -> u64 {
        match self {
            Status::Success => 0,
            Status::WarnUnknownGlyph => 1,
            Status::WarnDeleteFailure => 2,
            Status::WarnWriteFailure => 3,
            Status::WarnBufferTooSmall => 4,
            Status::WarnStaleData => 5,
            Status::LoadError => (ERROR_BIT + 1) as u64,
            Status::InvalidParameter => (ERROR_BIT + 2) as u64,
            Status::Unsupported => (ERROR_BIT + 3) as u64,
            Status::BadBufferSize => (ERROR_BIT + 4) as u64,
            Status::BufferTooSmall => (ERROR_BIT + 5) as u64,
            Status::NotReady => (ERROR_BIT + 6) as u64,
            Status::DeviceError => (ERROR_BIT + 7) as u64,
            Status::WriteProtected => (ERROR_BIT + 8) as u64,
            Status::OutOfResources => (ERROR_BIT + 9) as u64,
            Status::VolumeCorrupted => (ERROR_BIT + 10) as u64,
            Status::VolumeFull => (ERROR_BIT + 11) as u64,
            Status::NoMedia => (ERROR_BIT + 12) as u64,
            Status::MediaChanged => (ERROR_BIT + 13) as u64,
            Status::NotFound => (ERROR_BIT + 14) as u64,
            Status::AccessDenied => (ERROR_BIT + 15) as u64,
            Status::NoResponse => (ERROR_BIT + 16) as u64,
            Status::NoMapping => (ERROR_BIT + 17) as u64,
            Status::Timeout => (ERROR_BIT + 18) as u64,
            Status::NotStarted => (ERROR_BIT + 19) as u64,
            Status::AlreadyStarted => (ERROR_BIT + 20) as u64,
            Status::Aborted => (ERROR_BIT + 21) as u64,
            Status::IcmpError => (ERROR_BIT + 22) as u64,
            Status::TftpError => (ERROR_BIT + 23) as u64,
            Status::ProtocolError => (ERROR_BIT + 24) as u64,
            Status::IncompatibleVersion => (ERROR_BIT + 25) as u64,
            Status::SecurityViolation => (ERROR_BIT + 26) as u64,
            Status::CrcError => (ERROR_BIT + 27) as u64,
            Status::EndOfMedia => (ERROR_BIT + 28) as u64,
            Status::EndOfFile => (ERROR_BIT + 31) as u64,
            Status::InvalidLanguage => (ERROR_BIT + 32) as u64,
            Status::CompromisedData => (ERROR_BIT + 33) as u64,
            Status::Unknown(c) => c,
        }
    }

    /// A status is canonical when it is named wherever a name exists: an
    /// `Unknown` never holds a code that has a name.
    pub open spec fn is_canonical(self) -> bool {
        match self {
            Status::Unknown(c) => named_status(c).is_none(),
            _ => true,
        }
    }

    /// Reads a raw code as a status; codes without a name become `Unknown`.
    pub fn from_code(code: u64) -> (r: Status)
        ensures
            r.spec_code() == code,
            r.is_canonical(),
            r == (match named_status(code) {
                Some(s) => s,
                None => Status::Unknown(code),
            }),
    {
        if code < ERROR_BIT {
            match code {
                0 => Status::Success,
                1 => Status::WarnUnknownGlyph,
                2 => Status::WarnDeleteFailure,
                3 => Status::WarnWriteFailure,
                4 => Status::WarnBufferTooSmall,
                5 => Status::WarnStaleData,
                _ => Status::Unknown(code),
            }
        } else {
            match code - ERROR_BIT {
                1 => Status::LoadError,
                2 => Status::InvalidParameter,
                3 => Status::Unsupported,
                4 => Status::BadBufferSize,
                5 => Status::BufferTooSmall,
                6 => Status::NotReady,
                7 => Status::DeviceError,
                8 => Status::WriteProtected,
                9 => Status::OutOfResources,
                10 => Status::VolumeCorrupted,
                11 => Status::VolumeFull,
                12 => Status::NoMedia,
                13 => Status::MediaChanged,
                14 => Status::NotFound,
                15 => Status::AccessDenied,
                16 => Status::NoResponse,
                17 => Status::NoMapping,
                18 => Status::Timeout,
                19 => Status::NotStarted,
                20 => Status::AlreadyStarted,
                21 => Status::Aborted,
                22 => Status::IcmpError,
                23 => Status::TftpError,
                24 => Status::ProtocolError,
                25 => Status::IncompatibleVersion,
                26 => Status::SecurityViolation,
                27 => Status::CrcError,
                28 => Status::EndOfMedia,
                31 => Status::EndOfFile,
                32 => Status::InvalidLanguage,
                33 => Status::CompromisedData,
                _ => Status::Unknown(code),
            }
        }
    }

    /// The raw code of this status, as the firmware expects it.
    pub fn code(&self) -> (r: u64)
        ensures
            r == self.spec_code(),
    {
        match *self {
            Status::Success => 0,
            Status::WarnUnknownGlyph => 1,
            Status::WarnDeleteFailure => 2,
            Status::WarnWriteFailure => 3,
            Status::WarnBufferTooSmall => 4,
            Status::WarnStaleData => 5,
            Status::LoadError => ERROR_BIT + 1,
            Status::InvalidParameter => ERROR_BIT + 2,
            Status::Unsupported => ERROR_BIT + 3,
            Status::BadBufferSize => ERROR_BIT + 4,
            Status::BufferTooSmall => ERROR_BIT + 5,
            Status::NotReady => ERROR_BIT + 6,
            Status::DeviceError => ERROR_BIT + 7,
            Status::WriteProtected => ERROR_BIT + 8,
            Status::OutOfResources => ERROR_BIT + 9,
            Status::VolumeCorrupted => ERROR_BIT + 10,
            Status::VolumeFull => ERROR_BIT + 11,
            Status::NoMedia => ERROR_BIT + 12,
            Status::MediaChanged => ERROR_BIT + 13,
            Status::NotFound => ERROR_BIT + 14,
            Status::AccessDenied => ERROR_BIT + 15,
            Status::NoResponse => ERROR_BIT + 16,
            Status::NoMapping => ERROR_BIT + 17,
            Status::Timeout => ERROR_BIT + 18,
            Status::NotStarted => ERROR_BIT + 19,
            Status::AlreadyStarted => ERROR_BIT + 20,
            Status::Aborted => ERROR_BIT + 21,
            Status::IcmpError => ERROR_BIT + 22,
            Status::TftpError => ERROR_BIT + 23,
            Status::ProtocolError => ERROR_BIT + 24,
            Status::IncompatibleVersion => ERROR_BIT + 25,
            Status::SecurityViolation => ERROR_BIT + 26,
            Status::CrcError => ERROR_BIT + 27,
            Status::EndOfMedia => ERROR_BIT + 28,
            Status::EndOfFile => ERROR_BIT + 31,
            Status::InvalidLanguage => ERROR_BIT + 32,
            Status::CompromisedData => ERROR_BIT + 33,
            Status::Unknown(c) => c,
        }
    }

    /// Whether this is the one non-failure outcome.
    pub fn is_success(&self) -> (r: bool)
        ensures
            r <==> *self == Status::Success,
    {
        match *self {
            Status::Success => true,
            _ => false,
        }
    }
}

/// Reading the code of a status gives back that status, for every status
/// that is canonical.
pub proof fn lemma_code_round_trip(s: Status)
    requires
        s.is_canonical(),
    ensures
        (match named_status(s.spec_code()) {
            Some(n) => n,
            None => Status::Unknown(s.spec_code()),
        }) == s,
{
}

} // verus!
