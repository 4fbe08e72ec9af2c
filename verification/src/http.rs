use vstd::prelude::*;
use vstd::string::StringExecFns;
use vstd::utf8::decode_utf8;
use vstd::utf8::valid_utf8;

use crate::error::Error;
use crate::error::ErrorKind;
use crate::text::is_prefix_of;
use crate::text::str_starts_with;
use crate::text::utf8_str;

verus! {

/// What one HTTP exchange handed back: the status code, the content-type
/// header when the response carried one, and the raw body. Transient: never
/// kept past validation.
pub struct FetchResponse {
    pub status: u16,
    pub content_type: Option<String>,
    pub body: Vec<u8>,
}

/// The status codes of the success class.
pub open spec fn spec_status_success(status: u16) -> bool {
    200 <= status < 300
}

/// A content-type that announces an XML document.
pub open spec fn spec_xml_content_type(ct: Seq<char>) -> bool {
    is_prefix_of("application/xml"@, ct) || is_prefix_of("text/xml"@, ct)
}

/// A response that passes every transport-level check: a content-type is
/// present, it announces XML, and the status is a success.
pub open spec fn spec_response_valid(r: FetchResponse) -> bool {
    &&& r.content_type is Some
    &&& spec_xml_content_type(r.content_type.unwrap()@)
    &&& spec_status_success(r.status)
}

/// The body as diagnostic text: its decoding when it is UTF-8, nothing
/// otherwise.
pub open spec fn spec_body_text(body: Seq<u8>) -> Seq<char> {
    if valid_utf8(body) {
        decode_utf8(body)
    } else {
        Seq::empty()
    }
}

/// Enforces the response-validity rules, in order: a missing content-type
/// is an `InvalidResponse`; a content-type that does not announce XML is an
/// `InvalidResponse`; a status outside the success class is an
/// `InvalidResponse` carrying the body as diagnostic text. Only a response
/// that passes all three checks hands its bytes on. The content-type is
/// judged before the status, so a non-XML error page is reported as a
/// wrong-content response, not as a body failure.
pub fn validate_response(resp: FetchResponse) -> (r: Result<Vec<u8>, Error>)
    ensures
        spec_response_valid(resp) ==> (r matches Ok(body) && body == resp.body),
        !spec_response_valid(resp) ==> (r matches Err(e) && e.kind is InvalidResponse),
        resp.content_type is Some && spec_xml_content_type(resp.content_type.unwrap()@)
            && !spec_status_success(resp.status) ==> (r matches Err(e) && e.message@
            == spec_body_text(resp.body@)),
{
    let ct = match &resp.content_type {
        None => {
            return Err(
                Error::new(
                    ErrorKind::InvalidResponse,
                    String::from_str("Response carries no content-type header"),
                ),
            );
        },
        Some(ct) => ct,
    };
    if !(str_starts_with(ct.as_str(), "application/xml") || str_starts_with(
        ct.as_str(),
        "text/xml",
    )) {
        return Err(
            Error::new(
                ErrorKind::InvalidResponse,
                String::from_str("Response content-type does not announce XML"),
            ),
        );
    }
    if !(200 <= resp.status && resp.status < 300) {
        let text = match utf8_str(resp.body.as_slice()) {
            Some(s) => String::from_str(s),
            None => String::new(),
        };
        return Err(Error::new(ErrorKind::InvalidResponse, text));
    }
    Ok(resp.body)
}

} // verus!
