use vstd::prelude::*;

verus! {

/// Every failure of this layer, as one value of a closed enumeration.
///
/// The kinds fall into four groups:
/// - resource-not-ready: an operation was attempted against a handle that is
///   absent (never created, or already released);
/// - native-call-rejected: the modeled driver call itself reported a failure;
/// - argument-contract violation: a kernel call that cannot be type-checked
///   against the stored argument mapping;
/// - bitstream-metadata parse errors, surfaced from the image reader.
#[derive(Debug, PartialEq, Eq)]
pub enum Error {
    CStringCreationError,
    DeviceOpenError,
    UnopenedDeviceError,
    DeviceNotReadyError,
    XclbinFileAllocError,
    XclbinLoadError,
    XclbinUUIDRetrievalError,
    KernelCreationError,
    KernelNotLoadedYetError,
    KernelArgRtrvError,
    BOCreationError,
    RunCreationError,
    RunNotCreatedYetError,
    SetRunArgError,
    BONotCreatedYet,
    BOWriteError,
    BOReadError,
    BOSyncError,
    NoSuchKernelError,
    ArgumentNumberMismatchError,
    PassVecToScalarArgumentError,
    NoOpenRunsError,
    /// Carries the bytes actually found where the magic string was expected.
    XclbinInvalidMagicString(String),
    /// Carries the start of the byte range that was needed and the end of the
    /// data that was available.
    XclbinByteReadingError(usize, usize),
    XclbinNoBuildMetadataSection,
    /// Carries a diagnostic for build metadata that could not be decoded.
    XclbinJSONParseError(String),
}

} // verus!
