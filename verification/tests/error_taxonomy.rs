use dgram_proxy::errors::Error;

// Every non-payload variant maps to exactly the table value: the full
// enumeration, not a sample.
#[test]
fn status_table_full_enumeration() {
    let table: Vec<(Error, u16)> = vec![
        (Error::DnsTimeout, 504),
        (Error::DnsError, 502),
        (Error::DestinationNotFound, 500),
        (Error::DestinationUnavailable, 503),
        (Error::DestinationIpProhibited, 502),
        (Error::DestinationIpUnroutable, 502),
        (Error::ConnectionRefused, 502),
        (Error::ConnectionTerminated, 502),
        (Error::ConnectionReadTimeout, 504),
        (Error::ConnectionWriteTimeout, 504),
        (Error::ConnectionLimitReached, 503),
        (Error::TlsProtocolError, 502),
        (Error::TlsCertificateError, 502),
        (Error::TlsAlertReceived, 502),
        (Error::HttpRequestDenied, 403),
        (Error::HttpResponseIncomplete, 502),
        (Error::HttpResponseHeaderSectionSize, 502),
        (Error::HttpResponseHeaderSize, 502),
        (Error::HttpResponseBodySize, 502),
        (Error::HttpResponseTrailerSectionSize, 502),
        (Error::HttpResponseTrailerSize, 502),
        (Error::HttpResponseTransferCoding, 502),
        (Error::HttpResponseContentCoding, 502),
        (Error::HttpResponseTimeout, 504),
        (Error::HttpUpgradeFailed, 502),
        (Error::HttpProtocolError, 502),
        (Error::ProxyInternalError, 500),
        (Error::ProxyConfigurationError, 500),
        (Error::ProxyLoopDetected, 502),
    ];
    assert_eq!(table.len(), 29);
    for (e, expected) in table {
        assert_eq!(e.to_status_code(), expected);
    }
}

// The payload variants relay the carried status verbatim for every value,
// including out-of-range HTTP statuses: no validation.
#[test]
fn payload_status_verbatim_all_values() {
    for s in 0..=65535u16 {
        assert_eq!(Error::HttpRequestError(s).to_status_code(), s);
        assert_eq!(Error::ProxyInternalResponse(s).to_status_code(), s);
    }
}

#[test]
fn io_and_addr_parse_failures_lift_to_internal_error() {
    assert_eq!(Error::from_io_failure(), Error::ProxyInternalError);
    assert_eq!(Error::from_addr_parse_failure(), Error::ProxyInternalError);
    assert_eq!(Error::from_io_failure().to_status_code(), 500);
}

#[test]
fn display_is_nonempty_for_every_variant() {
    let all: Vec<Error> = vec![
        Error::DnsTimeout,
        Error::DnsError,
        Error::DestinationNotFound,
        Error::DestinationUnavailable,
        Error::DestinationIpProhibited,
        Error::DestinationIpUnroutable,
        Error::ConnectionRefused,
        Error::ConnectionTerminated,
        Error::ConnectionReadTimeout,
        Error::ConnectionWriteTimeout,
        Error::ConnectionLimitReached,
        Error::TlsProtocolError,
        Error::TlsCertificateError,
        Error::TlsAlertReceived,
        Error::HttpRequestError(0),
        Error::HttpRequestDenied,
        Error::HttpResponseIncomplete,
        Error::HttpResponseHeaderSectionSize,
        Error::HttpResponseHeaderSize,
        Error::HttpResponseBodySize,
        Error::HttpResponseTrailerSectionSize,
        Error::HttpResponseTrailerSize,
        Error::HttpResponseTransferCoding,
        Error::HttpResponseContentCoding,
        Error::HttpResponseTimeout,
        Error::HttpUpgradeFailed,
        Error::HttpProtocolError,
        Error::ProxyInternalResponse(65535),
        Error::ProxyInternalError,
        Error::ProxyConfigurationError,
        Error::ProxyLoopDetected,
    ];
    assert_eq!(all.len(), 31);
    for e in all {
        assert!(!e.display_string().is_empty());
    }
}

#[test]
fn display_matches_variant_tags() {
    assert_eq!(Error::DnsTimeout.display_string(), "DnsTimeout");
    assert_eq!(Error::DestinationNotFound.display_string(), "DestinationNotFound");
    assert_eq!(Error::TlsAlertReceived.display_string(), "TlsAlertReceived");
    assert_eq!(Error::ProxyLoopDetected.display_string(), "ProxyLoopDetected");
}

// Payload variants render the carried numeric status.
#[test]
fn display_includes_carried_status() {
    assert_eq!(Error::HttpRequestError(404).display_string(), "HttpRequestError(404)");
    assert_eq!(
        Error::ProxyInternalResponse(503).display_string(),
        "ProxyInternalResponse(503)"
    );
    assert_eq!(Error::HttpRequestError(0).display_string(), "HttpRequestError(0)");
    assert_eq!(
        Error::ProxyInternalResponse(65535).display_string(),
        "ProxyInternalResponse(65535)"
    );
    assert!(Error::HttpRequestError(1234).display_string().contains("1234"));
}
