//! HTTP protocol structures and the status-code mapping.

use vstd::prelude::*;

use crate::ffi::Guid;

verus! {

/// Identifier of the HTTP protocol.
pub fn http_protocol_guid() -> (g: Guid)
    ensures
        g == (Guid { data1: 0x7A59B29B, data2: 0x910B, data3: 0x4171, data4: [0x82, 0x42, 0xa8, 0x5a, 0x0d, 0xf2, 0x5b, 0x5b] }),
{
    Guid { data1: 0x7A59B29B, data2: 0x910B, data3: 0x4171, data4: [0x82, 0x42, 0xa8, 0x5a, 0x0d, 0xf2, 0x5b, 0x5b] }
}

/// Identifier of the HTTP service binding protocol.
pub fn http_service_binding_protocol_guid() -> (g: Guid)
    ensures
        g == (Guid { data1: 0xbdc8e6af, data2: 0xd9bc, data3: 0x4379, data4: [0xa7, 0x2a, 0xe0, 0xc4, 0xe7, 0x5d, 0xae, 0x1c] }),
{
    Guid { data1: 0xbdc8e6af, data2: 0xd9bc, data3: 0x4379, data4: [0xa7, 0x2a, 0xe0, 0xc4, 0xe7, 0x5d, 0xae, 0x1c] }
}

/// HTTP Version, in its architectural order.
#[derive(Debug, Copy, Clone, PartialEq, Eq, Structural)]
pub enum HttpVersion {
    Http10,
    Http11,
    Http20,
    HttpVersionUnsupported,
}

/// HTTP Method, in its architectural order.
#[derive(Debug, Copy, Clone, PartialEq, Eq, Structural)]
pub enum HttpMethod {
    HttpMethodGet,
    HttpMethodPost,
    HttpMethodPatch,
    HttpMethodOptions,
    HttpMethodConnect,
    HttpMethodHead,
    HttpMethodPut,
    HttpMethodDelete,
    HttpMethodTrace,
    HttpMethodMax,
}

/// HTTP Status Code, in its architectural order.
#[derive(Debug, Copy, Clone, PartialEq, Eq, Structural)]
pub enum HttpStatusCode {
    Http100Continue,
    Http200Ok,
    Http201Created,
    Http202Accepted,
    Http301MovedPermanently,
    Http302Found,
    Http304NotModified,
    Http400BadRequest,
    Http401Unauthorized,
    Http403Forbidden,
    Http404NotFound,
    Http500InternalServerError,
    Http501NotImplemented,
    Http503ServiceUnavailable,
    HttpStatusUnsupported,
}

/// The numeric HTTP status behind each status-code variant, with zero for
/// the unsupported marker.
pub open spec fn spec_status_code_to_int(code: HttpStatusCode) -> u32 {
    match code {
        HttpStatusCode::Http100Continue => 100,
        HttpStatusCode::Http200Ok => 200,
        HttpStatusCode::Http201Created => 201,
        HttpStatusCode::Http202Accepted => 202,
        HttpStatusCode::Http301MovedPermanently => 301,
        HttpStatusCode::Http302Found => 302,
        HttpStatusCode::Http304NotModified => 304,
        HttpStatusCode::Http400BadRequest => 400,
        HttpStatusCode::Http401Unauthorized => 401,
        HttpStatusCode::Http403Forbidden => 403,
        HttpStatusCode::Http404NotFound => 404,
        HttpStatusCode::Http500InternalServerError => 500,
        HttpStatusCode::Http501NotImplemented => 501,
        HttpStatusCode::Http503ServiceUnavailable => 503,
        HttpStatusCode::HttpStatusUnsupported => 0,
    }
}

/// Map a status-code variant to its numeric HTTP status.
pub fn status_code_to_int(code: HttpStatusCode) -> (r: u32)
    ensures
        r == spec_status_code_to_int(code),
{
    match code {
        HttpStatusCode::Http100Continue => 100,
        HttpStatusCode::Http200Ok => 200,
        HttpStatusCode::Http201Created => 201,
        HttpStatusCode::Http202Accepted => 202,
        HttpStatusCode::Http301MovedPermanently => 301,
        HttpStatusCode::Http302Found => 302,
        HttpStatusCode::Http304NotModified => 304,
        HttpStatusCode::Http400BadRequest => 400,
        HttpStatusCode::Http401Unauthorized => 401,
        HttpStatusCode::Http403Forbidden => 403,
        HttpStatusCode::Http404NotFound => 404,
        HttpStatusCode::Http500InternalServerError => 500,
        HttpStatusCode::Http501NotImplemented => 501,
        HttpStatusCode::Http503ServiceUnavailable => 503,
        HttpStatusCode::HttpStatusUnsupported => 0,
    }
}

/// EFI_HTTP_HEADER; the field strings are opaque address values.
#[derive(Debug, Copy, Clone)]
pub struct HttpHeader {
    pub field_name: usize,
    pub field_value: usize,
}

/// EFI_HTTP_MESSAGE; the request or response data is an opaque address
/// value.
#[derive(Debug, Copy, Clone)]
pub struct HttpMessage {
    pub data: usize,
}

/// EFI_HTTP_REQUEST_DATA; the URL is an opaque address value.
#[derive(Debug, Copy, Clone)]
pub struct HttpRequestData {
    pub method: HttpMethod,
    pub url: usize,
}

/// EFI_HTTP_RESPONSE_DATA
#[derive(Debug, Copy, Clone)]
pub struct HttpResponseData {
    pub status_code: HttpStatusCode,
}

/// EFI_HTTP_TOKEN; the message is an opaque address value.
#[derive(Debug, Copy, Clone)]
pub struct HttpToken {
    pub event: usize,
    pub status: usize,
    pub message: usize,
}

/// EFI_HTTP_CONFIG_DATA; the access point is an opaque address value.
#[derive(Debug, Copy, Clone)]
pub struct HttpConfigData {
    pub http_version: HttpVersion,
    pub time_out_millisec: u32,
    pub local_addr_is_ipv6: u8,
    pub access_point: usize,
}

/// IPv4 Configuration
#[derive(Debug, Copy, Clone)]
pub struct HttpConfigDataIpv4 {
    pub use_default_address: u8,
    pub local_ip: [u8; 4],
    pub local_subnet: [u8; 4],
    pub local_port: u16,
}

/// IPv6 Configuration
#[derive(Debug, Copy, Clone)]
pub struct HttpConfigDataIpv6 {
    pub local_ip: [u8; 16],
    pub local_port: u16,
}

/// EFI_HTTP_PROTOCOL, its services as opaque address values.
#[derive(Debug, Copy, Clone)]
pub struct HttpProtocol {
    pub get_mode_data: usize,
    pub configure: usize,
    pub request: usize,
    pub cancel: usize,
    pub response: usize,
    pub poll: usize,
}

} // verus!
