use vstd::prelude::*;

use crate::error::{BadRequestReason, FaucetError, FaucetResult};
use crate::http::{first_segment, header_is_text, is_header_text, take_until, trim, trim_ascii};
use crate::networking::IpAddress;

verus! {

/// Where the address of a client is taken from.
#[derive(Clone, Copy, Debug, PartialEq, Eq, Structural)]
pub enum IpExtractor {
    ClientAddr,
    XForwardedFor,
    XRealIp,
}

/// A proxy header that may carry the client's address.
#[derive(Clone, Copy, Debug, PartialEq, Eq, Structural)]
pub enum ProxyHeader {
    XForwardedFor,
    XRealIp,
}

impl ProxyHeader {
    pub open spec fn spec_name(self) -> Seq<char> {
        match self {
            ProxyHeader::XForwardedFor => "X-Forwarded-For"@,
            ProxyHeader::XRealIp => "X-Real-IP"@,
        }
    }

    /// The header's name as it is written on the wire.
    pub fn name(self) -> (s: &'static str)
        ensures
            s@ == self.spec_name(),
    {
        match self {
            ProxyHeader::XForwardedFor => "X-Forwarded-For",
            ProxyHeader::XRealIp => "X-Real-IP",
        }
    }
}

/// The values of the proxy headers of a request (the first value of each,
/// as raw bytes), `None` where the header is absent.
pub struct ProxyHeaders {
    pub x_forwarded_for: Option<Vec<u8>>,
    pub x_real_ip: Option<Vec<u8>>,
}

impl ProxyHeaders {
    pub open spec fn header(&self, h: ProxyHeader) -> Option<Seq<u8>> {
        match h {
            ProxyHeader::XForwardedFor => match self.x_forwarded_for {
                Some(v) => Some(v@),
                None => None,
            },
            ProxyHeader::XRealIp => match self.x_real_ip {
                Some(v) => Some(v@),
                None => None,
            },
        }
    }
}

/// What is known of a client's address before the address text is parsed.
pub enum IpCandidate {
    /// The address is known already.
    Known(IpAddress),
    /// The address is `text`, read from `header`, and must still be parsed.
    Text { header: ProxyHeader, text: Vec<u8> },
}

/// The error for a proxy header that is absent or cannot be read as text.
pub open spec fn is_missing_header_error(e: FaucetError, h: ProxyHeader) -> bool {
    e matches FaucetError::BadRequest(BadRequestReason::MissingHeader(n)) && n@ == h.spec_name()
}

/// The error for a proxy header whose text is not an IP address.
pub open spec fn is_invalid_header_error(e: FaucetError, h: ProxyHeader) -> bool {
    e matches FaucetError::BadRequest(BadRequestReason::InvalidHeader(n)) && n@ == h.spec_name()
}

/// The address text that a header value holds: for `X-Forwarded-For`
/// the first entry of the comma separated list without surrounding white
/// space, for `X-Real-IP` the whole value.
pub open spec fn address_text(h: ProxyHeader, v: Seq<u8>) -> Seq<u8> {
    match h {
        ProxyHeader::XForwardedFor => trim(take_until(v, 44)),
        ProxyHeader::XRealIp => v,
    }
}

fn missing_header(h: ProxyHeader) -> (e: FaucetError)
    ensures
        is_missing_header_error(e, h),
{
    FaucetError::BadRequest(BadRequestReason::MissingHeader(h.name()))
}

fn invalid_header(h: ProxyHeader) -> (e: FaucetError)
    ensures
        is_invalid_header_error(e, h),
{
    FaucetError::BadRequest(BadRequestReason::InvalidHeader(h.name()))
}

/// Reads the address text out of a value of header `h`.
fn candidate_from_header(h: ProxyHeader, value: &Option<Vec<u8>>) -> (r: FaucetResult<IpCandidate>)
    ensures
        match *value {
            None => r matches Err(e) && is_missing_header_error(e, h),
            Some(v) => if is_header_text(v@) {
                r matches Ok(IpCandidate::Text { header, text }) && header == h && text@
                    == address_text(h, v@)
            } else {
                r matches Err(e) && is_missing_header_error(e, h)
            },
        },
{
    match value {
        None => Err(missing_header(h)),
        Some(v) => {
            if !header_is_text(v.as_slice()) {
                return Err(missing_header(h));
            }
            let text = match h {
                ProxyHeader::XForwardedFor => {
                    let first = first_segment(v.as_slice(), 44);
                    trim_ascii(first.as_slice())
                },
                ProxyHeader::XRealIp => v.clone(),
            };
            Ok(IpCandidate::Text { header: h, text })
        },
    }
}

/// The header an extractor reads, `None` for the socket address.
pub open spec fn extractor_header(x: IpExtractor) -> Option<ProxyHeader> {
    match x {
        IpExtractor::ClientAddr => None,
        IpExtractor::XForwardedFor => Some(ProxyHeader::XForwardedFor),
        IpExtractor::XRealIp => Some(ProxyHeader::XRealIp),
    }
}

/// What extracting a client's address gives: the socket address for
/// `ClientAddr`; else the address text of the proxy header that the
/// extractor reads, an error where that header is absent or cannot be read
/// as text.
pub open spec fn extraction_result(
    x: IpExtractor,
    headers: &ProxyHeaders,
    client_addr: Option<IpAddress>,
    r: FaucetResult<IpCandidate>,
) -> bool {
    match extractor_header(x) {
        None => r == Ok::<IpCandidate, FaucetError>(IpCandidate::Known(client_addr->0)),
        Some(h) => match headers.header(h) {
            None => r matches Err(e) && is_missing_header_error(e, h),
            Some(v) => if is_header_text(v) {
                r matches Ok(IpCandidate::Text { header, text }) && header == h && text@
                    == address_text(h, v)
            } else {
                r matches Err(e) && is_missing_header_error(e, h)
            },
        },
    }
}

impl IpExtractor {
    /// Finds where the client's address is: the socket address for
    /// `ClientAddr`, else the text of the proxy header that the extractor
    /// reads. A header that is absent, or that cannot be read as text, is
    /// reported as missing.
    pub fn extract(self, headers: &ProxyHeaders, client_addr: Option<IpAddress>) -> (r: FaucetResult<
        IpCandidate,
    >)
        requires
            self == IpExtractor::ClientAddr ==> client_addr is Some,
        ensures
            extraction_result(self, headers, client_addr, r),
    {
        match self {
            IpExtractor::ClientAddr => match client_addr {
                Some(ip) => Ok(IpCandidate::Known(ip)),
                None => {
                    assert(false);
                    Err(FaucetError::NoSocketsAvailable)
                },
            },
            IpExtractor::XForwardedFor => candidate_from_header(
                ProxyHeader::XForwardedFor,
                &headers.x_forwarded_for,
            ),
            IpExtractor::XRealIp => candidate_from_header(ProxyHeader::XRealIp, &headers.x_real_ip),
        }
    }
}

impl IpCandidate {
    /// Completes an extraction: `parsed` is what the address text parses
    /// to (`None` where it is no IP address). A known address is returned
    /// as it is; text that is no address is reported as an invalid header.
    pub fn resolve(self, parsed: Option<IpAddress>) -> (r: FaucetResult<IpAddress>)
        ensures
            match self {
                IpCandidate::Known(ip) => r == Ok::<IpAddress, FaucetError>(ip),
                IpCandidate::Text { header, text } => match parsed {
                    Some(ip) => r == Ok::<IpAddress, FaucetError>(ip),
                    None => r matches Err(e) && is_invalid_header_error(e, header),
                },
            },
    {
        match self {
            IpCandidate::Known(ip) => Ok(ip),
            IpCandidate::Text { header, text: _ } => match parsed {
                Some(ip) => Ok(ip),
                None => Err(invalid_header(header)),
            },
        }
    }
}

} // verus!
