//! Timestamps and the mapping of native stream errors into the generic
//! error taxonomy.
use vstd::prelude::*;
use crate::config::{
    BackendSpecificError, BuildStreamError, PauseStreamError, PlayStreamError, StreamError,
};

verus! {

/// A point in time on a stream's clock: whole seconds and nanoseconds.
#[derive(Clone, Copy, Debug, PartialEq, Eq, Structural)]
pub struct StreamInstant {
    pub secs: i64,
    pub nanos: u32,
}

impl StreamInstant {
    pub fn new(secs: i64, nanos: u32) -> (r: StreamInstant)
        ensures
            r.secs == secs,
            r.nanos == nanos,
    {
        StreamInstant { secs, nanos }
    }
}

/// The instant that a duration of `secs` seconds and `subsec_nanos`
/// nanoseconds after the clock's origin stands for.
pub fn to_stream_instant(secs: u64, subsec_nanos: u32) -> (r: StreamInstant)
    requires
        secs <= i64::MAX,
    ensures
        r.secs == secs,
        r.nanos == subsec_nanos,
{
    StreamInstant::new(secs as i64, subsec_nanos)
}

/// The result codes of the native audio layer that signal an error.
#[derive(Clone, Copy, Debug, PartialEq, Eq, Structural)]
pub enum AAudioErrorResult {
    Base,
    Disconnected,
    IllegalArgument,
    Internal,
    InvalidState,
    InvalidHandle,
    Unimplemented,
    Unavailable,
    NoFreeHandles,
    NoMemory,
    Null,
    Timeout,
    WouldBlock,
    InvalidFormat,
    OutOfRange,
    NoService,
    InvalidRate,
}

/// An error of the native audio layer.
#[derive(Clone, Copy, Debug, PartialEq, Eq, Structural)]
pub enum AAudioError {
    ErrorResult(AAudioErrorResult),
    UnknownResult(i32),
    UnsupportedValue(i32),
}

/// A native error with the native layer's own description of it.
#[derive(Clone, Debug, PartialEq, Eq)]
pub struct NativeError {
    pub error: AAudioError,
    pub description: String,
}

/// Whether the error means that the device is gone.
pub open spec fn is_device_loss(e: AAudioError) -> bool {
    e == AAudioError::ErrorResult(AAudioErrorResult::Disconnected) || e
        == AAudioError::ErrorResult(AAudioErrorResult::Unavailable)
}

pub open spec fn backend_error(e: NativeError) -> BackendSpecificError {
    BackendSpecificError { description: e.description }
}

fn is_device_loss_code(e: AAudioError) -> (r: bool)
    ensures
        r == is_device_loss(e),
{
    match e {
        AAudioError::ErrorResult(AAudioErrorResult::Disconnected) => true,
        AAudioError::ErrorResult(AAudioErrorResult::Unavailable) => true,
        _ => false,
    }
}

/// The StreamError that a native error maps to.
pub open spec fn stream_error_of(error: NativeError) -> StreamError {
    if is_device_loss(error.error) {
        StreamError::DeviceNotAvailable
    } else {
        StreamError::BackendSpecific { err: backend_error(error) }
    }
}

impl From<NativeError> for StreamError {
    fn from(error: NativeError) -> (r: StreamError) {
        if is_device_loss_code(error.error) {
            StreamError::DeviceNotAvailable
        } else {
            StreamError::BackendSpecific { err: BackendSpecificError { description: error.description } }
        }
    }
}

impl vstd::std_specs::convert::FromSpecImpl<NativeError> for StreamError {
    open spec fn obeys_from_spec() -> bool {
        true
    }

    open spec fn from_spec(error: NativeError) -> StreamError {
        stream_error_of(error)
    }
}

/// The PlayStreamError that a native error maps to.
pub open spec fn play_error_of(error: NativeError) -> PlayStreamError {
    if is_device_loss(error.error) {
        PlayStreamError::DeviceNotAvailable
    } else {
        PlayStreamError::BackendSpecific { err: backend_error(error) }
    }
}

impl From<NativeError> for PlayStreamError {
    fn from(error: NativeError) -> (r: PlayStreamError) {
        if is_device_loss_code(error.error) {
            PlayStreamError::DeviceNotAvailable
        } else {
            PlayStreamError::BackendSpecific { err: BackendSpecificError { description: error.description } }
        }
    }
}

impl vstd::std_specs::convert::FromSpecImpl<NativeError> for PlayStreamError {
    open spec fn obeys_from_spec() -> bool {
        true
    }

    open spec fn from_spec(error: NativeError) -> PlayStreamError {
        play_error_of(error)
    }
}

/// The PauseStreamError that a native error maps to.
pub open spec fn pause_error_of(error: NativeError) -> PauseStreamError {
    if is_device_loss(error.error) {
        PauseStreamError::DeviceNotAvailable
    } else {
        PauseStreamError::BackendSpecific { err: backend_error(error) }
    }
}

impl From<NativeError> for PauseStreamError {
    fn from(error: NativeError) -> (r: PauseStreamError) {
        if is_device_loss_code(error.error) {
            PauseStreamError::DeviceNotAvailable
        } else {
            PauseStreamError::BackendSpecific { err: BackendSpecificError { description: error.description } }
        }
    }
}

impl vstd::std_specs::convert::FromSpecImpl<NativeError> for PauseStreamError {
    open spec fn obeys_from_spec() -> bool {
        true
    }

    open spec fn from_spec(error: NativeError) -> PauseStreamError {
        pause_error_of(error)
    }
}

/// The BuildStreamError that a native error maps to.
pub open spec fn build_error_of(error: NativeError) -> BuildStreamError {
    let e = error.error;
    if is_device_loss(e) {
        BuildStreamError::DeviceNotAvailable
    } else if e == AAudioError::ErrorResult(AAudioErrorResult::NoFreeHandles) {
        BuildStreamError::StreamIdOverflow
    } else if e == AAudioError::ErrorResult(AAudioErrorResult::InvalidFormat) || e
        == AAudioError::ErrorResult(AAudioErrorResult::InvalidRate) {
        BuildStreamError::StreamConfigNotSupported
    } else if e == AAudioError::ErrorResult(AAudioErrorResult::IllegalArgument) {
        BuildStreamError::InvalidArgument
    } else {
        BuildStreamError::BackendSpecific { err: backend_error(error) }
    }
}

impl From<NativeError> for BuildStreamError {
    fn from(error: NativeError) -> (r: BuildStreamError) {
        match error.error {
            AAudioError::ErrorResult(AAudioErrorResult::Disconnected) => BuildStreamError::DeviceNotAvailable,
            AAudioError::ErrorResult(AAudioErrorResult::Unavailable) => BuildStreamError::DeviceNotAvailable,
            AAudioError::ErrorResult(AAudioErrorResult::NoFreeHandles) => BuildStreamError::StreamIdOverflow,
            AAudioError::ErrorResult(AAudioErrorResult::InvalidFormat) => BuildStreamError::StreamConfigNotSupported,
            AAudioError::ErrorResult(AAudioErrorResult::InvalidRate) => BuildStreamError::StreamConfigNotSupported,
            AAudioError::ErrorResult(AAudioErrorResult::IllegalArgument) => BuildStreamError::InvalidArgument,
            _ => BuildStreamError::BackendSpecific {
                err: BackendSpecificError { description: error.description },
            },
        }
    }
}

impl vstd::std_specs::convert::FromSpecImpl<NativeError> for BuildStreamError {
    open spec fn obeys_from_spec() -> bool {
        true
    }

    open spec fn from_spec(error: NativeError) -> BuildStreamError {
        build_error_of(error)
    }
}

/// The build-time codes that have a bucket of their own.
pub open spec fn is_build_specific(e: AAudioError) -> bool {
    e == AAudioError::ErrorResult(AAudioErrorResult::NoFreeHandles) || e == AAudioError::ErrorResult(
        AAudioErrorResult::InvalidFormat,
    ) || e == AAudioError::ErrorResult(AAudioErrorResult::InvalidRate) || e
        == AAudioError::ErrorResult(AAudioErrorResult::IllegalArgument)
}

/// Every native error lands in exactly one bucket of each error kind: device
/// loss is `DeviceNotAvailable` for every kind; at build time, exhausted
/// handles are `StreamIdOverflow`, a rejected format or rate is
/// `StreamConfigNotSupported` and an illegal argument is `InvalidArgument`;
/// everything else is backend-specific and carries the native description.
pub proof fn lemma_error_mapping_total(e: NativeError)
    ensures
        is_device_loss(e.error) ==> {
            &&& stream_error_of(e) == StreamError::DeviceNotAvailable
            &&& play_error_of(e) == PlayStreamError::DeviceNotAvailable
            &&& pause_error_of(e) == PauseStreamError::DeviceNotAvailable
            &&& build_error_of(e) == BuildStreamError::DeviceNotAvailable
        },
        !is_device_loss(e.error) ==> {
            &&& stream_error_of(e) == (StreamError::BackendSpecific { err: backend_error(e) })
            &&& play_error_of(e) == (PlayStreamError::BackendSpecific { err: backend_error(e) })
            &&& pause_error_of(e) == (PauseStreamError::BackendSpecific { err: backend_error(e) })
        },
        e.error == AAudioError::ErrorResult(AAudioErrorResult::NoFreeHandles) ==> build_error_of(e)
            == BuildStreamError::StreamIdOverflow,
        e.error == AAudioError::ErrorResult(AAudioErrorResult::InvalidFormat) ==> build_error_of(e)
            == BuildStreamError::StreamConfigNotSupported,
        e.error == AAudioError::ErrorResult(AAudioErrorResult::InvalidRate) ==> build_error_of(e)
            == BuildStreamError::StreamConfigNotSupported,
        e.error == AAudioError::ErrorResult(AAudioErrorResult::IllegalArgument) ==> build_error_of(e)
            == BuildStreamError::InvalidArgument,
        !is_device_loss(e.error) && !is_build_specific(e.error) ==> build_error_of(e)
            == (BuildStreamError::BackendSpecific { err: backend_error(e) }),
{
}

} // verus!
