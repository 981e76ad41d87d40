use vstd::prelude::*;

use crate::status::EfiStatusCode;

verus! {

/// Why a boot attempt stopped. Every component reports one of these; the
/// transition controller alone decides whether to retry or to abort.
#[derive(Debug, Clone, Copy, PartialEq, Eq, Structural)]
pub enum LoaderError {
    /// No provider of the requested capability is installed.
    CapabilityNotFound,
    /// A caller-supplied buffer was too small; firmware needs `required` bytes.
    BufferTooSmall { required: usize },
    DeviceError,
    VolumeCorrupted,
    NotFound,
    AccessDenied,
    /// The fixed-address page allocation was refused.
    AllocationConflict,
    /// Reads stopped making progress before the whole image was read.
    ShortRead,
    /// Boot services could not be surrendered with a fresh map key within
    /// the allowed number of attempts.
    StaleEpochToken,
    Unsupported,
    InvalidParameter,
    /// The kernel file does not fit at the fixed load address.
    ImageTooLarge,
    /// Firmware returned a status this loader has no specific handling for.
    Firmware { status: EfiStatusCode },
    /// Firmware returned a raw status that names no known code.
    UnknownStatus { raw: u64 },
}

/// The error that a failed firmware call with status `code` is reported as.
pub open spec fn error_for_code(code: EfiStatusCode) -> LoaderError {
    match code {
        EfiStatusCode::EfiDeviceError => LoaderError::DeviceError,
        EfiStatusCode::EfiVolumeCorrupted => LoaderError::VolumeCorrupted,
        EfiStatusCode::EfiNotFound => LoaderError::NotFound,
        EfiStatusCode::EfiAccessDenied => LoaderError::AccessDenied,
        EfiStatusCode::EfiUnsupported => LoaderError::Unsupported,
        EfiStatusCode::EfiInvalidParameter => LoaderError::InvalidParameter,
        _ => LoaderError::Firmware { status: code },
    }
}

/// The error that a failed firmware call with raw status `raw` is reported as.
pub open spec fn error_for_raw(raw: u64) -> LoaderError {
    if exists|c: EfiStatusCode| c.raw() == raw {
        error_for_code(choose|c: EfiStatusCode| c.raw() == raw)
    } else {
        LoaderError::UnknownStatus { raw }
    }
}

impl LoaderError {
    /// Classifies the raw status of a failed firmware call.
    pub fn from_status(raw: u64) -> (r: LoaderError)
        ensures
            r == error_for_raw(raw),
    {
        match EfiStatusCode::from_raw(raw) {
            Some(code) => {
                proof {
                    EfiStatusCode::lemma_raw_injective(code);
                }
                match code {
                    EfiStatusCode::EfiDeviceError => LoaderError::DeviceError,
                    EfiStatusCode::EfiVolumeCorrupted => LoaderError::VolumeCorrupted,
                    EfiStatusCode::EfiNotFound => LoaderError::NotFound,
                    EfiStatusCode::EfiAccessDenied => LoaderError::AccessDenied,
                    EfiStatusCode::EfiUnsupported => LoaderError::Unsupported,
                    EfiStatusCode::EfiInvalidParameter => LoaderError::InvalidParameter,
                    _ => LoaderError::Firmware { status: code },
                }
            },
            None => LoaderError::UnknownStatus { raw },
        }
    }
}

} // verus!
