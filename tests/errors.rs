use aaudio_host::config::{
    BackendSpecificError, BuildStreamError, PauseStreamError, PlayStreamError, StreamError,
};
use aaudio_host::convert::{AAudioError, AAudioErrorResult, NativeError};

const ALL_RESULTS: [AAudioErrorResult; 17] = [
    AAudioErrorResult::Base,
    AAudioErrorResult::Disconnected,
    AAudioErrorResult::IllegalArgument,
    AAudioErrorResult::Internal,
    AAudioErrorResult::InvalidState,
    AAudioErrorResult::InvalidHandle,
    AAudioErrorResult::Unimplemented,
    AAudioErrorResult::Unavailable,
    AAudioErrorResult::NoFreeHandles,
    AAudioErrorResult::NoMemory,
    AAudioErrorResult::Null,
    AAudioErrorResult::Timeout,
    AAudioErrorResult::WouldBlock,
    AAudioErrorResult::InvalidFormat,
    AAudioErrorResult::OutOfRange,
    AAudioErrorResult::NoService,
    AAudioErrorResult::InvalidRate,
];

fn native(error: AAudioError) -> NativeError {
    NativeError { error, description: format!("native {:?}", error) }
}

fn backend(error: AAudioError) -> BackendSpecificError {
    BackendSpecificError { description: format!("native {:?}", error) }
}

fn all_errors() -> Vec<AAudioError> {
    let mut v: Vec<AAudioError> = ALL_RESULTS.iter().map(|r| AAudioError::ErrorResult(*r)).collect();
    v.push(AAudioError::UnknownResult(-1000));
    v.push(AAudioError::UnsupportedValue(7));
    v
}

fn is_loss(e: AAudioError) -> bool {
    matches!(
        e,
        AAudioError::ErrorResult(AAudioErrorResult::Disconnected) | AAudioError::ErrorResult(AAudioErrorResult::Unavailable)
    )
}

#[test]
fn stream_play_pause_mapping_is_total() {
    for e in all_errors() {
        let s = StreamError::from(native(e));
        let p = PlayStreamError::from(native(e));
        let q = PauseStreamError::from(native(e));
        if is_loss(e) {
            assert_eq!(s, StreamError::DeviceNotAvailable);
            assert_eq!(p, PlayStreamError::DeviceNotAvailable);
            assert_eq!(q, PauseStreamError::DeviceNotAvailable);
        } else {
            assert_eq!(s, StreamError::BackendSpecific { err: backend(e) });
            assert_eq!(p, PlayStreamError::BackendSpecific { err: backend(e) });
            assert_eq!(q, PauseStreamError::BackendSpecific { err: backend(e) });
        }
    }
}

#[test]
fn build_mapping_is_total() {
    for e in all_errors() {
        let b = BuildStreamError::from(native(e));
        let expected = match e {
            AAudioError::ErrorResult(AAudioErrorResult::Disconnected)
            | AAudioError::ErrorResult(AAudioErrorResult::Unavailable) => BuildStreamError::DeviceNotAvailable,
            AAudioError::ErrorResult(AAudioErrorResult::NoFreeHandles) => BuildStreamError::StreamIdOverflow,
            AAudioError::ErrorResult(AAudioErrorResult::InvalidFormat)
            | AAudioError::ErrorResult(AAudioErrorResult::InvalidRate) => BuildStreamError::StreamConfigNotSupported,
            AAudioError::ErrorResult(AAudioErrorResult::IllegalArgument) => BuildStreamError::InvalidArgument,
            _ => BuildStreamError::BackendSpecific { err: backend(e) },
        };
        assert_eq!(b, expected);
    }
}

#[test]
fn backend_error_keeps_description() {
    let e = NativeError {
        error: AAudioError::ErrorResult(AAudioErrorResult::Timeout),
        description: "error AAudio result (Timeout)".to_string(),
    };
    match BuildStreamError::from(e) {
        BuildStreamError::BackendSpecific { err } => assert_eq!(err.description, "error AAudio result (Timeout)"),
        other => panic!("unexpected {:?}", other),
    }
}
