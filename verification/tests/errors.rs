use nacos_binding::error::remote_result;
use nacos_binding::{NacosError, RemoteFailure};
use nacos_sdk::api::error::Error;

fn text(s: &str) -> String {
    s.to_string()
}

#[test]
fn refused_parameter_is_a_validation_error() {
    let err = NacosError::classify(RemoteFailure::InvalidParam, text("data_id"));
    assert_eq!(err, NacosError::Validation(text("data_id")));
}

#[test]
fn connection_failures_are_connection_errors() {
    let kinds = [
        RemoteFailure::ClientShutdown,
        RemoteFailure::ClientUnhealthy,
        RemoteFailure::GrpcTransport,
        RemoteFailure::GrpcStatus,
        RemoteFailure::GrpcBufferRequest,
        RemoteFailure::NoAvailableServer,
        RemoteFailure::WrongServerAddress,
        RemoteFailure::Other,
    ];
    for kind in kinds {
        assert_eq!(NacosError::classify(kind, text("down")), NacosError::Connection(text("down")));
    }
}

#[test]
fn rejected_requests_are_remote_operation_errors() {
    let kinds = [
        RemoteFailure::Serialization,
        RemoteFailure::ErrResult,
        RemoteFailure::ErrResponse,
        RemoteFailure::ConfigNotFound,
        RemoteFailure::ConfigQueryConflict,
    ];
    for kind in kinds {
        assert_eq!(
            NacosError::classify(kind, text("conflict")),
            NacosError::RemoteOperation(text("conflict"))
        );
    }
}

#[test]
fn sdk_invalid_param_maps_to_validation() {
    let err = Error::InvalidParam(text("group"), text("param must not blank!"));
    let mapped = NacosError::from_remote(&err);
    assert_eq!(mapped, NacosError::Validation(format!("{:?}", err)));
}

#[test]
fn sdk_conflict_keeps_the_server_detail() {
    let err = Error::ConfigQueryConflict(text("being modified"));
    match NacosError::from_remote(&err) {
        NacosError::RemoteOperation(detail) => {
            assert!(detail.contains("being modified"));
            assert!(detail.contains("ConfigQueryConflict"));
        }
        other => panic!("unexpected {:?}", other),
    }
}

#[test]
fn sdk_request_failures_map_to_remote_operation() {
    let errs = vec![
        Error::ErrResult(text("no result")),
        Error::ErrResponse(Some(text("r-1")), 500, 30000, Some(text("boom"))),
        Error::ConfigNotFound(text("missing")),
        Error::ConfigQueryConflict(text("busy")),
    ];
    for err in errs {
        let rendered = format!("{:?}", err);
        assert_eq!(NacosError::from_remote(&err), NacosError::RemoteOperation(rendered));
    }
}

#[test]
fn sdk_connection_failures_map_to_connection() {
    let errs = vec![
        Error::ClientShutdown(text("bye")),
        Error::ClientUnhealthy(text("sick")),
        Error::NoAvailableServer,
        Error::WrongServerAddress(text("Server address is empty")),
        Error::GrpcBufferRequest("the buffer is closed".into()),
    ];
    for err in errs {
        let rendered = format!("{:?}", err);
        assert_eq!(NacosError::from_remote(&err), NacosError::Connection(rendered));
    }
}

#[test]
#[allow(deprecated)]
fn a_variant_without_a_name_here_is_a_connection_error() {
    let err = Error::MaxRetriesExceeded(3);
    assert_eq!(
        NacosError::from_remote(&err),
        NacosError::Connection(text("MaxRetriesExceeded(3)"))
    );
}

#[test]
fn remote_result_passes_values_and_maps_errors() {
    let ok: Result<bool, Error> = Ok(true);
    assert_eq!(remote_result(ok), Ok(true));
    let failed: Result<bool, Error> = Err(Error::NoAvailableServer);
    assert_eq!(remote_result(failed), Err(NacosError::Connection(text("NoAvailableServer"))));
}

#[test]
fn only_delivery_errors_are_kept_from_callers() {
    assert!(NacosError::Connection(text("x")).is_surfaced());
    assert!(NacosError::Validation(text("x")).is_surfaced());
    assert!(NacosError::RemoteOperation(text("x")).is_surfaced());
    assert!(NacosError::Closed.is_surfaced());
    assert!(!NacosError::Delivery(text("x")).is_surfaced());
}
