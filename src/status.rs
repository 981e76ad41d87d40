use vstd::prelude::*;

verus! {

/// The bit that marks a status value as an error (the top bit of a 64-bit
/// `EFI_STATUS`).
pub const ERROR_BIT: u64 = 0x8000_0000_0000_0000;

/// A decoded `EFI_STATUS`: success, an error, or a warning.
#[derive(Debug, Clone, Copy, PartialEq, Eq, Structural)]
pub enum EfiStatusCode {
    EfiSuccess,
    EfiLoadError,
    EfiInvalidParameter,
    EfiUnsupported,
    EfiBadBufferSize,
    EfiBufferTooSmall,
    EfiNotReady,
    EfiDeviceError,
    EfiWriteProtected,
    EfiOutOfResources,
    EfiVolumeCorrupted,
    EfiVolumeFull,
    EfiNoMedia,
    EfiMediaChanged,
    EfiNotFound,
    EfiAccessDenied,
    EfiNoResponse,
    EfiNoMapping,
    EfiTimeout,
    EfiNotStarted,
    EfiAlreadyStarted,
    EfiAborted,
    EfiIcmpError,
    EfiTftpError,
    EfiProtocolError,
    EfiIncompatibleVersion,
    EfiSecurityViolation,
    EfiCrcError,
    EfiEndOfMedia,
    EfiEndOfFile,
    EfiInvalidLanguage,
    EfiCompromisedData,
    EfiIpAddressConflict,
    EfiHttpError,
    EfiWarnUnknownGlyph,
    EfiWarnDeleteFailure,
    EfiWarnWriteFailure,
    EfiWarnBufferTooSmall,
    EfiWarnStaleData,
    EfiWarnFileSystem,
    EfiWarnResetRequired,
}

impl EfiStatusCode {
    /// The raw `EFI_STATUS` value of this code: errors carry the error bit and
    /// their number, success is zero and warnings are small positive numbers.
    pub open spec fn raw(self) -> u64 {
        match self {
            EfiStatusCode::EfiSuccess => (0) as u64,
            EfiStatusCode::EfiLoadError => (ERROR_BIT + 1) as u64,
            EfiStatusCode::EfiInvalidParameter => (ERROR_BIT + 2) as u64,
            EfiStatusCode::EfiUnsupported => (ERROR_BIT + 3) as u64,
            EfiStatusCode::EfiBadBufferSize => (ERROR_BIT + 4) as u64,
            EfiStatusCode::EfiBufferTooSmall => (ERROR_BIT + 5) as u64,
            EfiStatusCode::EfiNotReady => (ERROR_BIT + 6) as u64,
            EfiStatusCode::EfiDeviceError => (ERROR_BIT + 7) as u64,
            EfiStatusCode::EfiWriteProtected => (ERROR_BIT + 8) as u64,
            EfiStatusCode::EfiOutOfResources => (ERROR_BIT + 9) as u64,
            EfiStatusCode::EfiVolumeCorrupted => (ERROR_BIT + 10) as u64,
            EfiStatusCode::EfiVolumeFull => (ERROR_BIT + 11) as u64,
            EfiStatusCode::EfiNoMedia => (ERROR_BIT + 12) as u64,
            EfiStatusCode::EfiMediaChanged => (ERROR_BIT + 13) as u64,
            EfiStatusCode::EfiNotFound => (ERROR_BIT + 14) as u64,
            EfiStatusCode::EfiAccessDenied => (ERROR_BIT + 15) as u64,
            EfiStatusCode::EfiNoResponse => (ERROR_BIT + 16) as u64,
            EfiStatusCode::EfiNoMapping => (ERROR_BIT + 17) as u64,
            EfiStatusCode::EfiTimeout => (ERROR_BIT + 18) as u64,
            EfiStatusCode::EfiNotStarted => (ERROR_BIT + 19) as u64,
            EfiStatusCode::EfiAlreadyStarted => (ERROR_BIT + 20) as u64,
            EfiStatusCode::EfiAborted => (ERROR_BIT + 21) as u64,
            EfiStatusCode::EfiIcmpError => (ERROR_BIT + 22) as u64,
            EfiStatusCode::EfiTftpError => (ERROR_BIT + 23) as u64,
            EfiStatusCode::EfiProtocolError => (ERROR_BIT + 24) as u64,
            EfiStatusCode::EfiIncompatibleVersion => (ERROR_BIT + 25) as u64,
            EfiStatusCode::EfiSecurityViolation => (ERROR_BIT + 26) as u64,
            EfiStatusCode::EfiCrcError => (ERROR_BIT + 27) as u64,
            EfiStatusCode::EfiEndOfMedia => (ERROR_BIT + 28) as u64,
            EfiStatusCode::EfiEndOfFile => (ERROR_BIT + 31) as u64,
            EfiStatusCode::EfiInvalidLanguage => (ERROR_BIT + 32) as u64,
            EfiStatusCode::EfiCompromisedData => (ERROR_BIT + 33) as u64,
            EfiStatusCode::EfiIpAddressConflict => (ERROR_BIT + 34) as u64,
            EfiStatusCode::EfiHttpError => (ERROR_BIT + 35) as u64,
            EfiStatusCode::EfiWarnUnknownGlyph => (1) as u64,
            EfiStatusCode::EfiWarnDeleteFailure => (2) as u64,
            EfiStatusCode::EfiWarnWriteFailure => (3) as u64,
            EfiStatusCode::EfiWarnBufferTooSmall => (4) as u64,
            EfiStatusCode::EfiWarnStaleData => (5) as u64,
            EfiStatusCode::EfiWarnFileSystem => (6) as u64,
            EfiStatusCode::EfiWarnResetRequired => (7) as u64,
        }
    }

    /// Encodes this code as the raw value that firmware returns for it.
    pub fn to_raw(&self) -> (r: u64)
        ensures
            r == self.raw(),
    {
        match self {
            EfiStatusCode::EfiSuccess => 0,
            EfiStatusCode::EfiLoadError => ERROR_BIT + 1,
            EfiStatusCode::EfiInvalidParameter => ERROR_BIT + 2,
            EfiStatusCode::EfiUnsupported => ERROR_BIT + 3,
            EfiStatusCode::EfiBadBufferSize => ERROR_BIT + 4,
            EfiStatusCode::EfiBufferTooSmall => ERROR_BIT + 5,
            EfiStatusCode::EfiNotReady => ERROR_BIT + 6,
            EfiStatusCode::EfiDeviceError => ERROR_BIT + 7,
            EfiStatusCode::EfiWriteProtected => ERROR_BIT + 8,
            EfiStatusCode::EfiOutOfResources => ERROR_BIT + 9,
            EfiStatusCode::EfiVolumeCorrupted => ERROR_BIT + 10,
            EfiStatusCode::EfiVolumeFull => ERROR_BIT + 11,
            EfiStatusCode::EfiNoMedia => ERROR_BIT + 12,
            EfiStatusCode::EfiMediaChanged => ERROR_BIT + 13,
            EfiStatusCode::EfiNotFound => ERROR_BIT + 14,
            EfiStatusCode::EfiAccessDenied => ERROR_BIT + 15,
            EfiStatusCode::EfiNoResponse => ERROR_BIT + 16,
            EfiStatusCode::EfiNoMapping => ERROR_BIT + 17,
            EfiStatusCode::EfiTimeout => ERROR_BIT + 18,
            EfiStatusCode::EfiNotStarted => ERROR_BIT + 19,
            EfiStatusCode::EfiAlreadyStarted => ERROR_BIT + 20,
            EfiStatusCode::EfiAborted => ERROR_BIT + 21,
            EfiStatusCode::EfiIcmpError => ERROR_BIT + 22,
            EfiStatusCode::EfiTftpError => ERROR_BIT + 23,
            EfiStatusCode::EfiProtocolError => ERROR_BIT + 24,
            EfiStatusCode::EfiIncompatibleVersion => ERROR_BIT + 25,
            EfiStatusCode::EfiSecurityViolation => ERROR_BIT + 26,
            EfiStatusCode::EfiCrcError => ERROR_BIT + 27,
            EfiStatusCode::EfiEndOfMedia => ERROR_BIT + 28,
            EfiStatusCode::EfiEndOfFile => ERROR_BIT + 31,
            EfiStatusCode::EfiInvalidLanguage => ERROR_BIT + 32,
            EfiStatusCode::EfiCompromisedData => ERROR_BIT + 33,
            EfiStatusCode::EfiIpAddressConflict => ERROR_BIT + 34,
            EfiStatusCode::EfiHttpError => ERROR_BIT + 35,
            EfiStatusCode::EfiWarnUnknownGlyph => 1,
            EfiStatusCode::EfiWarnDeleteFailure => 2,
            EfiStatusCode::EfiWarnWriteFailure => 3,
            EfiStatusCode::EfiWarnBufferTooSmall => 4,
            EfiStatusCode::EfiWarnStaleData => 5,
            EfiStatusCode::EfiWarnFileSystem => 6,
            EfiStatusCode::EfiWarnResetRequired => 7,
        }
    }

    /// Decodes a raw `EFI_STATUS`; `None` for a value that names no known code.
    pub fn from_raw(raw: u64) -> (r: Option<EfiStatusCode>)
        ensures
            r matches Some(c) ==> c.raw() == raw,
            r is None ==> forall|c: EfiStatusCode| #[trigger] c.raw() != raw,
    {
        if raw >= ERROR_BIT {
            match raw - ERROR_BIT {
                1 => Some(EfiStatusCode::EfiLoadError),
                2 => Some(EfiStatusCode::EfiInvalidParameter),
                3 => Some(EfiStatusCode::EfiUnsupported),
                4 => Some(EfiStatusCode::EfiBadBufferSize),
                5 => Some(EfiStatusCode::EfiBufferTooSmall),
                6 => Some(EfiStatusCode::EfiNotReady),
                7 => Some(EfiStatusCode::EfiDeviceError),
                8 => Some(EfiStatusCode::EfiWriteProtected),
                9 => Some(EfiStatusCode::EfiOutOfResources),
                10 => Some(EfiStatusCode::EfiVolumeCorrupted),
                11 => Some(EfiStatusCode::EfiVolumeFull),
                12 => Some(EfiStatusCode::EfiNoMedia),
                13 => Some(EfiStatusCode::EfiMediaChanged),
                14 => Some(EfiStatusCode::EfiNotFound),
                15 => Some(EfiStatusCode::EfiAccessDenied),
                16 => Some(EfiStatusCode::EfiNoResponse),
                17 => Some(EfiStatusCode::EfiNoMapping),
                18 => Some(EfiStatusCode::EfiTimeout),
                19 => Some(EfiStatusCode::EfiNotStarted),
                20 => Some(EfiStatusCode::EfiAlreadyStarted),
                21 => Some(EfiStatusCode::EfiAborted),
                22 => Some(EfiStatusCode::EfiIcmpError),
                23 => Some(EfiStatusCode::EfiTftpError),
                24 => Some(EfiStatusCode::EfiProtocolError),
                25 => Some(EfiStatusCode::EfiIncompatibleVersion),
                26 => Some(EfiStatusCode::EfiSecurityViolation),
                27 => Some(EfiStatusCode::EfiCrcError),
                28 => Some(EfiStatusCode::EfiEndOfMedia),
                31 => Some(EfiStatusCode::EfiEndOfFile),
                32 => Some(EfiStatusCode::EfiInvalidLanguage),
                33 => Some(EfiStatusCode::EfiCompromisedData),
                34 => Some(EfiStatusCode::EfiIpAddressConflict),
                35 => Some(EfiStatusCode::EfiHttpError),
                _ => None,
            }
        } else {
            match raw {
                0 => Some(EfiStatusCode::EfiSuccess),
                1 => Some(EfiStatusCode::EfiWarnUnknownGlyph),
                2 => Some(EfiStatusCode::EfiWarnDeleteFailure),
                3 => Some(EfiStatusCode::EfiWarnWriteFailure),
                4 => Some(EfiStatusCode::EfiWarnBufferTooSmall),
                5 => Some(EfiStatusCode::EfiWarnStaleData),
                6 => Some(EfiStatusCode::EfiWarnFileSystem),
                7 => Some(EfiStatusCode::EfiWarnResetRequired),
                _ => None,
            }
        }
    }

    /// True when the status is an error: its raw value carries the error bit.
    pub fn is_err(&self) -> (r: bool)
        ensures
            r == (self.raw() >= ERROR_BIT),
    {
        self.to_raw() >= ERROR_BIT
    }

    /// True exactly for `EfiSuccess`.
    pub fn is_success(&self) -> (r: bool)
        ensures
            r == (*self == EfiStatusCode::EfiSuccess),
    {
        match self {
            EfiStatusCode::EfiSuccess => true,
            _ => false,
        }
    }

    /// Returns `EfiSuccess`; callers establish beforehand that the status is
    /// a success.
    pub fn unwrap_success(&self) -> (r: EfiStatusCode)
        requires
            *self == EfiStatusCode::EfiSuccess,
        ensures
            r == EfiStatusCode::EfiSuccess,
    {
        EfiStatusCode::EfiSuccess
    }

    /// No two codes share a raw value.
    pub proof fn lemma_raw_injective(a: EfiStatusCode)
        ensures
            forall|b: EfiStatusCode| #[trigger] b.raw() == a.raw() ==> b == a,
    {
    }
}

} // verus!
