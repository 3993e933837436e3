//! The transport-neutral response shape, and the simple responses: JSON
//! totals, not-found, opaque server failure, and asset passthrough with a
//! best-effort sniffed content type.

use crate::num::dec_digits;
use crate::num::u32_to_dec;
use vstd::prelude::*;
use vstd::slice::slice_to_vec;
use vstd::string::StringSliceAdditionalSpecFns;

verus! {

/// The content types this server ever labels a response with. Asset types
/// are a best-effort guess from the asset's leading bytes.
#[derive(Clone, Copy, Debug, PartialEq, Eq, Structural)]
pub enum ContentType {
    Html,
    Json,
    PlainText,
    Png,
    Jpeg,
    Gif,
    OctetStream,
}

/// A transport-neutral HTTP response. Both deployment adapters translate
/// this one shape out to their wire types.
#[derive(Debug)]
pub struct HttpResponse {
    /// HTTP status code.
    pub status: u16,
    /// What the body is labelled as.
    pub content_type: ContentType,
    /// Whether the response carries the long-lived public cache header
    /// (`public, max-age=6048000, immutable`), as served assets do.
    pub cache_forever: bool,
    /// The response body.
    pub body: Vec<u8>,
}

/// The JSON reply body of the submit endpoint for total `n`.
pub open spec fn json_total_bytes(n: int) -> Seq<u8> {
    "{\"total\": ".spec_bytes() + dec_digits(n) + "}".spec_bytes()
}

/// The submit endpoint's reply body: `{"total": <n>}`.
pub fn json_total(total: u32) -> (r: Vec<u8>)
    ensures
        r@ == json_total_bytes(total as int),
{
    let mut body = slice_to_vec("{\"total\": ".as_bytes());
    let mut digits = u32_to_dec(total);
    body.append(&mut digits);
    let mut close = slice_to_vec("}".as_bytes());
    body.append(&mut close);
    proof {
        assert(body@ =~= json_total_bytes(total as int));
    }
    body
}

/// The plain-text body of a not-found reply.
pub open spec fn not_found_body() -> Seq<u8> {
    "404 Not Found".spec_bytes()
}

/// The plain-text body of an opaque server-failure reply. Store failures are
/// logged at the edge; the client only ever sees this.
pub open spec fn server_error_body() -> Seq<u8> {
    "500 Internal Server Error".spec_bytes()
}

/// A not-found reply: 404, plain text, never cached long-lived.
pub open spec fn not_found_obs(r: HttpResponse) -> bool {
    r.status == 404 && !r.cache_forever && r.content_type == ContentType::PlainText && r.body@
        == not_found_body()
}

/// The not-found reply for unmatched routes and unknown assets.
pub fn not_found_response() -> (r: HttpResponse)
    ensures
        not_found_obs(r),
{
    HttpResponse {
        status: 404,
        content_type: ContentType::PlainText,
        cache_forever: false,
        body: slice_to_vec("404 Not Found".as_bytes()),
    }
}

/// An opaque server-failure reply: 500, plain text, no internal detail.
pub open spec fn server_error_obs(r: HttpResponse) -> bool {
    r.status == 500 && !r.cache_forever && r.content_type == ContentType::PlainText && r.body@
        == server_error_body()
}

/// The opaque reply for store failures on the index and submit paths.
pub fn server_error_response() -> (r: HttpResponse)
    ensures
        server_error_obs(r),
{
    HttpResponse {
        status: 500,
        content_type: ContentType::PlainText,
        cache_forever: false,
        body: slice_to_vec("500 Internal Server Error".as_bytes()),
    }
}

/// Best-effort content type from an asset's leading bytes: the magic numbers
/// of the common image formats, and a generic byte-stream label otherwise.
pub open spec fn sniff_spec(b: Seq<u8>) -> ContentType {
    if b.len() >= 4 && b[0] == 0x89u8 && b[1] == 0x50u8 && b[2] == 0x4eu8 && b[3] == 0x47u8 {
        ContentType::Png
    } else if b.len() >= 3 && b[0] == 0xffu8 && b[1] == 0xd8u8 && b[2] == 0xffu8 {
        ContentType::Jpeg
    } else if b.len() >= 4 && b[0] == 0x47u8 && b[1] == 0x49u8 && b[2] == 0x46u8 && b[3]
        == 0x38u8 {
        ContentType::Gif
    } else {
        ContentType::OctetStream
    }
}

/// Sniffs an asset's content type from its leading bytes.
pub fn sniff_content_type(b: &[u8]) -> (r: ContentType)
    ensures
        r == sniff_spec(b@),
{
    let n: usize = b.len();
    if n >= 4 && b[0] == 0x89 && b[1] == 0x50 && b[2] == 0x4e && b[3] == 0x47 {
        ContentType::Png
    } else if n >= 3 && b[0] == 0xff && b[1] == 0xd8 && b[2] == 0xff {
        ContentType::Jpeg
    } else if n >= 4 && b[0] == 0x47 && b[1] == 0x49 && b[2] == 0x46 && b[3] == 0x38 {
        ContentType::Gif
    } else {
        ContentType::OctetStream
    }
}

/// The view of an optional byte buffer, for contracts over asset lookups.
pub open spec fn opt_bytes_view(a: Option<Vec<u8>>) -> Option<Seq<u8>> {
    match a {
        Some(v) => Some(v@),
        None => None,
    }
}

/// What serving an asset lookup result looks like: 200 with the bytes, the
/// long-lived cache header and a sniffed content type when the asset exists,
/// and the not-found reply when it does not — never a server failure.
pub open spec fn asset_response_obs(asset: Option<Seq<u8>>, r: HttpResponse) -> bool {
    match asset {
        Some(data) => r.status == 200 && r.cache_forever && r.content_type == sniff_spec(data)
            && r.body@ == data,
        None => not_found_obs(r),
    }
}

/// Serves the result of an asset lookup.
pub fn serve_asset(asset: Option<Vec<u8>>) -> (r: HttpResponse)
    ensures
        asset_response_obs(opt_bytes_view(asset), r),
        r.status == 200 || r.status == 404,
{
    match asset {
        Some(data) => {
            let ct = sniff_content_type(data.as_slice());
            HttpResponse { status: 200, content_type: ct, cache_forever: true, body: data }
        },
        None => not_found_response(),
    }
}

/// The value of the long-lived cache header served with assets.
pub fn cache_control_value() -> (r: String)
    ensures
        r@ == "public, max-age=6048000, immutable"@,
{
    "public, max-age=6048000, immutable".to_owned()
}

/// The header value each content type is written as on the wire.
pub open spec fn content_type_name(ct: ContentType) -> Seq<char> {
    match ct {
        ContentType::Html => "text/html; charset=utf-8"@,
        ContentType::Json => "application/json"@,
        ContentType::PlainText => "text/plain; charset=utf-8"@,
        ContentType::Png => "image/png"@,
        ContentType::Jpeg => "image/jpeg"@,
        ContentType::Gif => "image/gif"@,
        ContentType::OctetStream => "application/octet-stream"@,
    }
}

/// Writes a content type as its header value.
pub fn content_type_value(ct: ContentType) -> (r: String)
    ensures
        r@ == content_type_name(ct),
{
    match ct {
        ContentType::Html => "text/html; charset=utf-8".to_owned(),
        ContentType::Json => "application/json".to_owned(),
        ContentType::PlainText => "text/plain; charset=utf-8".to_owned(),
        ContentType::Png => "image/png".to_owned(),
        ContentType::Jpeg => "image/jpeg".to_owned(),
        ContentType::Gif => "image/gif".to_owned(),
        ContentType::OctetStream => "application/octet-stream".to_owned(),
    }
}

} // verus!
