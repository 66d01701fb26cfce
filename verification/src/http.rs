//! Request and response values as the verified pipeline sees them.
//!
//! A response's headers are modelled as dedicated fields, one per semantic
//! key the pipeline touches; header names are case-insensitive and unique
//! per key, so a field per key is a faithful model of the header map.

use vstd::prelude::*;

verus! {

/// The request methods the pipeline distinguishes. Every other method is
/// `Other` and falls through to normal miss/fallback handling.
#[derive(Clone, Copy, Debug, PartialEq, Eq, Structural)]
pub enum Method {
    Get,
    Head,
    Options,
    Other,
}

/// A content type inferred from a file extension.
#[derive(Clone, Copy, Debug, PartialEq, Eq, Structural)]
pub enum ContentType {
    Html,
    Css,
    JavaScript,
    Json,
    Png,
    Jpeg,
    Gif,
    Svg,
    Icon,
    Text,
    Wasm,
    OctetStream,
}

/// A negotiated response encoding. Deflate and zstd are never offered.
#[derive(Clone, Copy, Debug, PartialEq, Eq, Structural)]
pub enum Encoding {
    Brotli,
    Gzip,
}

/// Which of the two offered encodings a client's `Accept-Encoding` lists.
#[derive(Clone, Copy, Debug, PartialEq, Eq, Structural)]
pub struct Encodings {
    pub br: bool,
    pub gzip: bool,
}

/// An incoming request, reduced to the values the pipeline reads.
pub struct Request {
    pub method: Method,
    /// The request path, as raw bytes, before any resolution.
    pub path: Vec<u8>,
    /// The `Accept-Encoding` header value, if the request carried one.
    pub accept_encoding: Option<Vec<u8>>,
    /// Whether the request carried an `Access-Control-Request-Method`
    /// header, the marker of a CORS preflight.
    pub cors_request_method: bool,
}

/// The mathematical image of a [`Request`].
#[verifier::ext_equal]
pub struct RequestModel {
    pub method: Method,
    pub path: Seq<u8>,
    pub accept_encoding: Option<Seq<u8>>,
    pub cors_request_method: bool,
}

impl View for Request {
    type V = RequestModel;

    open spec fn view(&self) -> RequestModel {
        RequestModel {
            method: self.method,
            path: self.path@,
            accept_encoding: match self.accept_encoding {
                Some(h) => Some(h@),
                None => None,
            },
            cors_request_method: self.cors_request_method,
        }
    }
}

/// An outgoing response. `cache_control` true means the header
/// `Cache-Control: max-age=600, public` is present; `allow_origin` and
/// `allow_headers` true mean `Access-Control-Allow-Origin: *` and
/// `Access-Control-Allow-Headers: *` are present.
pub struct Response {
    pub status: u16,
    pub body: Vec<u8>,
    pub content_type: Option<ContentType>,
    pub cache_control: bool,
    pub content_encoding: Option<Encoding>,
    pub allow_origin: bool,
    pub allow_headers: bool,
}

/// The mathematical image of a [`Response`].
#[verifier::ext_equal]
pub struct ResponseModel {
    pub status: u16,
    pub body: Seq<u8>,
    pub content_type: Option<ContentType>,
    pub cache_control: bool,
    pub content_encoding: Option<Encoding>,
    pub allow_origin: bool,
    pub allow_headers: bool,
}

impl View for Response {
    type V = ResponseModel;

    open spec fn view(&self) -> ResponseModel {
        ResponseModel {
            status: self.status,
            body: self.body@,
            content_type: self.content_type,
            cache_control: self.cache_control,
            content_encoding: self.content_encoding,
            allow_origin: self.allow_origin,
            allow_headers: self.allow_headers,
        }
    }
}

/// A request is a CORS preflight when it is an `OPTIONS` request that
/// announces the method it asks about.
pub open spec fn is_preflight(r: RequestModel) -> bool {
    r.method is Options && r.cors_request_method
}

/// Decides whether a request is a CORS preflight.
pub fn preflight(req: &Request) -> (b: bool)
    ensures
        b == is_preflight(req@),
{
    matches!(req.method, Method::Options) && req.cors_request_method
}

/// The text of the `Cache-Control` header the pipeline sets on success.
pub open spec fn cache_control_text() -> Seq<char> {
    "max-age=600, public"@
}

/// The `Cache-Control` value set on every successful response.
pub fn cache_control_value() -> (r: &'static str)
    ensures
        r@ == cache_control_text(),
{
    "max-age=600, public"
}

/// The header text of each content type.
pub open spec fn content_type_text(c: ContentType) -> Seq<char> {
    match c {
        ContentType::Html => "text/html"@,
        ContentType::Css => "text/css"@,
        ContentType::JavaScript => "text/javascript"@,
        ContentType::Json => "application/json"@,
        ContentType::Png => "image/png"@,
        ContentType::Jpeg => "image/jpeg"@,
        ContentType::Gif => "image/gif"@,
        ContentType::Svg => "image/svg+xml"@,
        ContentType::Icon => "image/x-icon"@,
        ContentType::Text => "text/plain"@,
        ContentType::Wasm => "application/wasm"@,
        ContentType::OctetStream => "application/octet-stream"@,
    }
}

/// The `Content-Type` header value for an inferred content type.
pub fn content_type_label(c: &ContentType) -> (r: &'static str)
    ensures
        r@ == content_type_text(*c),
{
    match c {
        ContentType::Html => "text/html",
        ContentType::Css => "text/css",
        ContentType::JavaScript => "text/javascript",
        ContentType::Json => "application/json",
        ContentType::Png => "image/png",
        ContentType::Jpeg => "image/jpeg",
        ContentType::Gif => "image/gif",
        ContentType::Svg => "image/svg+xml",
        ContentType::Icon => "image/x-icon",
        ContentType::Text => "text/plain",
        ContentType::Wasm => "application/wasm",
        ContentType::OctetStream => "application/octet-stream",
    }
}

/// The header text of each encoding.
pub open spec fn encoding_text(e: Encoding) -> Seq<char> {
    match e {
        Encoding::Brotli => "br"@,
        Encoding::Gzip => "gzip"@,
    }
}

/// The `Content-Encoding` header value for a negotiated encoding.
pub fn encoding_label(e: &Encoding) -> (r: &'static str)
    ensures
        r@ == encoding_text(*e),
{
    match e {
        Encoding::Brotli => "br",
        Encoding::Gzip => "gzip",
    }
}

} // verus!
