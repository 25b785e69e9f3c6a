//! The proxy failure taxonomy and its total mapping to HTTP status codes.
//!
//! Every failure the relay pipeline can produce — resolution, transport,
//! TLS, HTTP shape violations, proxy-internal faults — is one variant of
//! [`Error`], and [`Error::to_status_code`] maps each variant to the status
//! an intermediary should report for it under RFC 9209.

use vstd::prelude::*;
use vstd::string::StringExecFns;

use crate::text::dec_spec;
use crate::text::u16_to_decimal;

verus! {

/// A proxy failure, RFC 9209 style. The set is closed: every failure
/// anywhere in the relay pipeline is classified as exactly one variant.
///
/// Two variants carry a status code to be relayed verbatim:
/// `HttpRequestError` holds an upstream-origin response status, and
/// `ProxyInternalResponse` holds a proxy-generated status.
#[derive(Clone, Copy, Debug, PartialEq, Eq)]
pub enum Error {
    DnsTimeout,
    DnsError,
    DestinationNotFound,
    DestinationUnavailable,
    DestinationIpProhibited,
    DestinationIpUnroutable,
    ConnectionRefused,
    ConnectionTerminated,
    ConnectionReadTimeout,
    ConnectionWriteTimeout,
    ConnectionLimitReached,
    TlsProtocolError,
    TlsCertificateError,
    TlsAlertReceived,
    HttpRequestError(u16),
    HttpRequestDenied,
    HttpResponseIncomplete,
    HttpResponseHeaderSectionSize,
    HttpResponseHeaderSize,
    HttpResponseBodySize,
    HttpResponseTrailerSectionSize,
    HttpResponseTrailerSize,
    HttpResponseTransferCoding,
    HttpResponseContentCoding,
    HttpResponseTimeout,
    HttpUpgradeFailed,
    HttpProtocolError,
    ProxyInternalResponse(u16),
    ProxyInternalError,
    ProxyConfigurationError,
    ProxyLoopDetected,
}

/// The status code owed for each failure: timeouts are 504, unreachable or
/// misbehaving upstreams are 502, exhausted or unavailable capacity is 503,
/// a denied request is 403, proxy-side faults are 500, and the two payload
/// variants relay their carried status verbatim, unvalidated.
pub open spec fn status_of(e: Error) -> u16 {
    match e {
        Error::DnsTimeout => 504,
        Error::DnsError => 502,
        Error::DestinationNotFound => 500,
        Error::DestinationUnavailable => 503,
        Error::DestinationIpProhibited => 502,
        Error::DestinationIpUnroutable => 502,
        Error::ConnectionRefused => 502,
        Error::ConnectionTerminated => 502,
        Error::ConnectionReadTimeout => 504,
        Error::ConnectionWriteTimeout => 504,
        Error::ConnectionLimitReached => 503,
        Error::TlsProtocolError => 502,
        Error::TlsCertificateError => 502,
        Error::TlsAlertReceived => 502,
        Error::HttpRequestError(status_code) => status_code,
        Error::HttpRequestDenied => 403,
        Error::HttpResponseIncomplete => 502,
        Error::HttpResponseHeaderSectionSize => 502,
        Error::HttpResponseHeaderSize => 502,
        Error::HttpResponseBodySize => 502,
        Error::HttpResponseTrailerSectionSize => 502,
        Error::HttpResponseTrailerSize => 502,
        Error::HttpResponseTransferCoding => 502,
        Error::HttpResponseContentCoding => 502,
        Error::HttpResponseTimeout => 504,
        Error::HttpUpgradeFailed => 502,
        Error::HttpProtocolError => 502,
        Error::ProxyInternalResponse(status_code) => status_code,
        Error::ProxyInternalError => 500,
        Error::ProxyConfigurationError => 500,
        Error::ProxyLoopDetected => 502,
    }
}

impl Error {
    /// The pure, total classification: every variant has exactly one status
    /// code, with no fallback branch and no panic path.
    pub fn to_status_code(self) -> (code: u16)
        ensures
            code == status_of(self),
    {
        match self {
            Error::DnsTimeout => 504,
            Error::DnsError => 502,
            Error::DestinationNotFound => 500,
            Error::DestinationUnavailable => 503,
            Error::DestinationIpProhibited => 502,
            Error::DestinationIpUnroutable => 502,
            Error::ConnectionRefused => 502,
            Error::ConnectionTerminated => 502,
            Error::ConnectionReadTimeout => 504,
            Error::ConnectionWriteTimeout => 504,
            Error::ConnectionLimitReached => 503,
            Error::TlsProtocolError => 502,
            Error::TlsCertificateError => 502,
            Error::TlsAlertReceived => 502,
            Error::HttpRequestError(status_code) => status_code,
            Error::HttpRequestDenied => 403,
            Error::HttpResponseIncomplete => 502,
            Error::HttpResponseHeaderSectionSize => 502,
            Error::HttpResponseHeaderSize => 502,
            Error::HttpResponseBodySize => 502,
            Error::HttpResponseTrailerSectionSize => 502,
            Error::HttpResponseTrailerSize => 502,
            Error::HttpResponseTransferCoding => 502,
            Error::HttpResponseContentCoding => 502,
            Error::HttpResponseTimeout => 504,
            Error::HttpUpgradeFailed => 502,
            Error::HttpProtocolError => 502,
            Error::ProxyInternalResponse(status_code) => status_code,
            Error::ProxyInternalError => 500,
            Error::ProxyConfigurationError => 500,
            Error::ProxyLoopDetected => 502,
        }
    }

    /// The lossy lift of a generic I/O failure into the taxonomy. The
    /// original cause is deliberately discarded here; callers that need
    /// finer-grained causes must classify before converting, and callers
    /// that want a diagnostic record must log the cause themselves.
    pub fn from_io_failure() -> (e: Error)
        ensures
            e == Error::ProxyInternalError,
    {
        Error::ProxyInternalError
    }

    /// The lossy lift of an address-parse failure into the taxonomy, with
    /// the same deliberate loss of detail as [`Error::from_io_failure`].
    pub fn from_addr_parse_failure() -> (e: Error)
        ensures
            e == Error::ProxyInternalError,
    {
        Error::ProxyInternalError
    }
}

/// The human-readable rendering of each failure: the variant's tag name,
/// and for the two payload variants the tag followed by the carried
/// status in decimal, parenthesized. Stable enough for logs; not a
/// machine-parsing contract.
pub open spec fn display_spec(e: Error) -> Seq<char> {
    match e {
        Error::DnsTimeout => "DnsTimeout"@,
        Error::DnsError => "DnsError"@,
        Error::DestinationNotFound => "DestinationNotFound"@,
        Error::DestinationUnavailable => "DestinationUnavailable"@,
        Error::DestinationIpProhibited => "DestinationIpProhibited"@,
        Error::DestinationIpUnroutable => "DestinationIpUnroutable"@,
        Error::ConnectionRefused => "ConnectionRefused"@,
        Error::ConnectionTerminated => "ConnectionTerminated"@,
        Error::ConnectionReadTimeout => "ConnectionReadTimeout"@,
        Error::ConnectionWriteTimeout => "ConnectionWriteTimeout"@,
        Error::ConnectionLimitReached => "ConnectionLimitReached"@,
        Error::TlsProtocolError => "TlsProtocolError"@,
        Error::TlsCertificateError => "TlsCertificateError"@,
        Error::TlsAlertReceived => "TlsAlertReceived"@,
        Error::HttpRequestError(s) => "HttpRequestError("@ + dec_spec(s as int) + ")"@,
        Error::HttpRequestDenied => "HttpRequestDenied"@,
        Error::HttpResponseIncomplete => "HttpResponseIncomplete"@,
        Error::HttpResponseHeaderSectionSize => "HttpResponseHeaderSectionSize"@,
        Error::HttpResponseHeaderSize => "HttpResponseHeaderSize"@,
        Error::HttpResponseBodySize => "HttpResponseBodySize"@,
        Error::HttpResponseTrailerSectionSize => "HttpResponseTrailerSectionSize"@,
        Error::HttpResponseTrailerSize => "HttpResponseTrailerSize"@,
        Error::HttpResponseTransferCoding => "HttpResponseTransferCoding"@,
        Error::HttpResponseContentCoding => "HttpResponseContentCoding"@,
        Error::HttpResponseTimeout => "HttpResponseTimeout"@,
        Error::HttpUpgradeFailed => "HttpUpgradeFailed"@,
        Error::HttpProtocolError => "HttpProtocolError"@,
        Error::ProxyInternalResponse(s) => "ProxyInternalResponse("@ + dec_spec(s as int) + ")"@,
        Error::ProxyInternalError => "ProxyInternalError"@,
        Error::ProxyConfigurationError => "ProxyConfigurationError"@,
        Error::ProxyLoopDetected => "ProxyLoopDetected"@,
    }
}

impl Error {
    /// Render the failure for humans, exactly as [`display_spec`] says:
    /// the tag name, plus the carried status for the payload variants.
    pub fn display_string(&self) -> (r: String)
        ensures
            r@ == display_spec(*self),
    {
        match self {
            Error::DnsTimeout => String::from_str("DnsTimeout"),
            Error::DnsError => String::from_str("DnsError"),
            Error::DestinationNotFound => String::from_str("DestinationNotFound"),
            Error::DestinationUnavailable => String::from_str("DestinationUnavailable"),
            Error::DestinationIpProhibited => String::from_str("DestinationIpProhibited"),
            Error::DestinationIpUnroutable => String::from_str("DestinationIpUnroutable"),
            Error::ConnectionRefused => String::from_str("ConnectionRefused"),
            Error::ConnectionTerminated => String::from_str("ConnectionTerminated"),
            Error::ConnectionReadTimeout => String::from_str("ConnectionReadTimeout"),
            Error::ConnectionWriteTimeout => String::from_str("ConnectionWriteTimeout"),
            Error::ConnectionLimitReached => String::from_str("ConnectionLimitReached"),
            Error::TlsProtocolError => String::from_str("TlsProtocolError"),
            Error::TlsCertificateError => String::from_str("TlsCertificateError"),
            Error::TlsAlertReceived => String::from_str("TlsAlertReceived"),
            Error::HttpRequestError(s) => {
                let digits = u16_to_decimal(*s);
                let r = String::from_str("HttpRequestError(").concat(digits.as_str()).concat(")");
                proof {
                    assert(r@ =~= display_spec(*self));
                }
                r
            },
            Error::HttpRequestDenied => String::from_str("HttpRequestDenied"),
            Error::HttpResponseIncomplete => String::from_str("HttpResponseIncomplete"),
            Error::HttpResponseHeaderSectionSize => String::from_str(
                "HttpResponseHeaderSectionSize",
            ),
            Error::HttpResponseHeaderSize => String::from_str("HttpResponseHeaderSize"),
            Error::HttpResponseBodySize => String::from_str("HttpResponseBodySize"),
            Error::HttpResponseTrailerSectionSize => String::from_str(
                "HttpResponseTrailerSectionSize",
            ),
            Error::HttpResponseTrailerSize => String::from_str("HttpResponseTrailerSize"),
            Error::HttpResponseTransferCoding => String::from_str("HttpResponseTransferCoding"),
            Error::HttpResponseContentCoding => String::from_str("HttpResponseContentCoding"),
            Error::HttpResponseTimeout => String::from_str("HttpResponseTimeout"),
            Error::HttpUpgradeFailed => String::from_str("HttpUpgradeFailed"),
            Error::HttpProtocolError => String::from_str("HttpProtocolError"),
            Error::ProxyInternalResponse(s) => {
                let digits = u16_to_decimal(*s);
                let r = String::from_str("ProxyInternalResponse(").concat(digits.as_str()).concat(
                    ")",
                );
                proof {
                    assert(r@ =~= display_spec(*self));
                }
                r
            },
            Error::ProxyInternalError => String::from_str("ProxyInternalError"),
            Error::ProxyConfigurationError => String::from_str("ProxyConfigurationError"),
            Error::ProxyLoopDetected => String::from_str("ProxyLoopDetected"),
        }
    }
}

/// `needle` occurs in `hay` as a contiguous run.
pub open spec fn contains_seq(hay: Seq<char>, needle: Seq<char>) -> bool {
    exists|i: int|
        0 <= i && i + needle.len() <= hay.len() && #[trigger] hay.subrange(
            i,
            i + needle.len() as int,
        ) == needle
}

/// A decimal rendering is never empty.
proof fn lemma_dec_spec_len(n: int)
    ensures
        dec_spec(n).len() >= 1,
    decreases n,
{
}

/// Law: the rendering of every variant is non-empty.
pub proof fn lemma_display_nonempty(e: Error)
    ensures
        display_spec(e).len() > 0,
{
    reveal_strlit("DnsTimeout");
    reveal_strlit("DnsError");
    reveal_strlit("DestinationNotFound");
    reveal_strlit("DestinationUnavailable");
    reveal_strlit("DestinationIpProhibited");
    reveal_strlit("DestinationIpUnroutable");
    reveal_strlit("ConnectionRefused");
    reveal_strlit("ConnectionTerminated");
    reveal_strlit("ConnectionReadTimeout");
    reveal_strlit("ConnectionWriteTimeout");
    reveal_strlit("ConnectionLimitReached");
    reveal_strlit("TlsProtocolError");
    reveal_strlit("TlsCertificateError");
    reveal_strlit("TlsAlertReceived");
    reveal_strlit("HttpRequestError(");
    reveal_strlit("HttpRequestDenied");
    reveal_strlit("HttpResponseIncomplete");
    reveal_strlit("HttpResponseHeaderSectionSize");
    reveal_strlit("HttpResponseHeaderSize");
    reveal_strlit("HttpResponseBodySize");
    reveal_strlit("HttpResponseTrailerSectionSize");
    reveal_strlit("HttpResponseTrailerSize");
    reveal_strlit("HttpResponseTransferCoding");
    reveal_strlit("HttpResponseContentCoding");
    reveal_strlit("HttpResponseTimeout");
    reveal_strlit("HttpUpgradeFailed");
    reveal_strlit("HttpProtocolError");
    reveal_strlit("ProxyInternalResponse(");
    reveal_strlit("ProxyInternalError");
    reveal_strlit("ProxyConfigurationError");
    reveal_strlit("ProxyLoopDetected");
    if let Error::HttpRequestError(s) = e {
        lemma_dec_spec_len(s as int);
    }
    if let Error::ProxyInternalResponse(s) = e {
        lemma_dec_spec_len(s as int);
    }
}

/// Law: a payload variant's rendering carries the status it holds — the
/// decimal digits of the status occur in the rendered text.
pub proof fn lemma_display_includes_status(status: u16)
    ensures
        contains_seq(display_spec(Error::HttpRequestError(status)), dec_spec(status as int)),
        contains_seq(display_spec(Error::ProxyInternalResponse(status)), dec_spec(status as int)),
{
    let digits = dec_spec(status as int);
    let req = display_spec(Error::HttpRequestError(status));
    let req_tag = "HttpRequestError("@;
    assert(req.subrange(req_tag.len() as int, req_tag.len() + digits.len() as int) =~= digits);
    let resp = display_spec(Error::ProxyInternalResponse(status));
    let resp_tag = "ProxyInternalResponse("@;
    assert(resp.subrange(resp_tag.len() as int, resp_tag.len() + digits.len() as int) =~= digits);
}

/// Law: the two payload variants relay their carried status verbatim — for
/// every status value, in or out of the HTTP range, classification returns
/// it unchanged and performs no validation.
pub proof fn lemma_payload_status_verbatim(status: u16)
    ensures
        status_of(Error::HttpRequestError(status)) == status,
        status_of(Error::ProxyInternalResponse(status)) == status,
{
}

} // verus!
