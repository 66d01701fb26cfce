//! The per-request pipeline: resolver, cache-control post-processing,
//! compression negotiation, CORS policy and the timeout guard, composed in
//! a fixed nesting order (timeout outermost, resolver innermost).
//!
//! The surrounding process performs the filesystem reads and the deadline
//! wait; what it learned arrives here as a [`ServeEvent`], and the whole
//! pipeline is a function from configuration, request and event to the
//! response.

use vstd::prelude::*;
use crate::accept::{negotiate, parse_accept_encoding, spec_accepts_opt, spec_negotiate};
use crate::config::Config;
use crate::http::{
    is_preflight, preflight, ContentType, Encoding, Encodings, Request, RequestModel, Response,
    ResponseModel,
};
use crate::mime::{content_type_of_name, spec_content_type};
use crate::path::{sanitize_path, spec_segments};

verus! {

pub const STATUS_OK: u16 = 200;

pub const STATUS_NOT_FOUND: u16 = 404;

pub const STATUS_TIMEOUT: u16 = 408;

pub const STATUS_SERVER_ERROR: u16 = 500;

/// A status in the success range.
pub open spec fn is_success(status: u16) -> bool {
    200 <= status <= 299
}

/// What the process learned about one request before the pipeline decides
/// the response: the outcome of the filesystem probe, or that the
/// deadline elapsed first.
pub enum ServeEvent {
    /// The deadline elapsed before the downstream work finished.
    TimedOut,
    /// Nothing was probed: the request is answered without a file
    /// (a preflight, or a path that did not resolve).
    NoProbe,
    /// The resolved path names an existing file, read whole.
    FileOk { body: Vec<u8> },
    /// The resolved path names an existing file that could not be read.
    FileReadError,
    /// No file matches and fallback routing is off.
    NotFound,
    /// No file matches; the fallback file was read whole.
    FallbackOk { body: Vec<u8> },
    /// No file matches and the fallback file does not exist.
    FallbackMissing,
    /// No file matches and the fallback file could not be read.
    FallbackReadError,
}

/// The mathematical image of a [`ServeEvent`].
pub enum EventModel {
    TimedOut,
    NoProbe,
    FileOk(Seq<u8>),
    FileReadError,
    NotFound,
    FallbackOk(Seq<u8>),
    FallbackMissing,
    FallbackReadError,
}

impl View for ServeEvent {
    type V = EventModel;

    open spec fn view(&self) -> EventModel {
        match self {
            ServeEvent::TimedOut => EventModel::TimedOut,
            ServeEvent::NoProbe => EventModel::NoProbe,
            ServeEvent::FileOk { body } => EventModel::FileOk(body@),
            ServeEvent::FileReadError => EventModel::FileReadError,
            ServeEvent::NotFound => EventModel::NotFound,
            ServeEvent::FallbackOk { body } => EventModel::FallbackOk(body@),
            ServeEvent::FallbackMissing => EventModel::FallbackMissing,
            ServeEvent::FallbackReadError => EventModel::FallbackReadError,
        }
    }
}

/// A response fresh out of the resolver: no cache, encoding or CORS
/// headers yet.
pub open spec fn base_model(status: u16, body: Seq<u8>, ct: Option<ContentType>) -> ResponseModel {
    ResponseModel {
        status,
        body,
        content_type: ct,
        cache_control: false,
        content_encoding: None,
        allow_origin: false,
        allow_headers: false,
    }
}

pub open spec fn miss_model() -> ResponseModel {
    base_model(STATUS_NOT_FOUND, Seq::empty(), None)
}

pub open spec fn read_error_model() -> ResponseModel {
    base_model(STATUS_SERVER_ERROR, Seq::empty(), None)
}

pub open spec fn preflight_model() -> ResponseModel {
    base_model(STATUS_OK, Seq::empty(), None)
}

pub open spec fn timeout_model() -> ResponseModel {
    base_model(STATUS_TIMEOUT, Seq::empty(), None)
}

/// The content type of the file the resolved segments name.
pub open spec fn ct_of_segs(segs: Seq<Seq<u8>>) -> ContentType {
    if segs.len() == 0 {
        ContentType::OctetStream
    } else {
        spec_content_type(segs.last())
    }
}

/// The resolver's response: a file served whole with its inferred content
/// type; a miss answered 404 (always for a path that does not resolve,
/// and for a miss without a fallback); a failed read answered 500. The
/// fallback file is served as HTML.
pub open spec fn spec_resolver(req: RequestModel, ev: EventModel) -> ResponseModel {
    match spec_segments(req.path) {
        None => miss_model(),
        Some(segs) => match ev {
            EventModel::FileOk(body) => base_model(STATUS_OK, body, Some(ct_of_segs(segs))),
            EventModel::FileReadError => read_error_model(),
            EventModel::NotFound => miss_model(),
            EventModel::FallbackOk(body) => base_model(
                STATUS_OK,
                body,
                Some(ContentType::Html),
            ),
            EventModel::FallbackMissing => miss_model(),
            EventModel::FallbackReadError => read_error_model(),
            EventModel::TimedOut => miss_model(),
            EventModel::NoProbe => miss_model(),
        },
    }
}

/// The post-processor: a success response gains
/// `Cache-Control: max-age=600, public`; everything else passes through
/// untouched.
pub open spec fn spec_post(r: ResponseModel) -> ResponseModel {
    if is_success(r.status) {
        ResponseModel { cache_control: true, ..r }
    } else {
        r
    }
}

/// The compression negotiator: a non-empty body is marked with the
/// negotiated encoding; otherwise the response passes through untouched.
/// The body bytes themselves are transformed by the transport, which must
/// apply the recorded encoding reversibly.
pub open spec fn spec_compress(
    brotli_on: bool,
    gzip_on: bool,
    acc: Encodings,
    r: ResponseModel,
) -> ResponseModel {
    let enc = spec_negotiate(brotli_on, gzip_on, acc);
    if r.body.len() > 0 && enc is Some {
        ResponseModel { content_encoding: enc, ..r }
    } else {
        r
    }
}

/// The CORS policy: every response leaves with both allow headers.
pub open spec fn spec_cors(r: ResponseModel) -> ResponseModel {
    ResponseModel { allow_origin: true, allow_headers: true, ..r }
}

/// The whole pipeline. The timeout guard is outermost: when the deadline
/// elapsed the abandoned downstream work is replaced by the timeout
/// response, which still carries the CORS headers, since every response
/// must leave through the CORS policy. Otherwise a preflight is answered
/// directly — the resolver is never invoked — and every other request is
/// answered from the resolver's event; either inner response then passes
/// through post-processing, compression negotiation and CORS, in that
/// order.
pub open spec fn spec_handle(
    brotli_on: bool,
    gzip_on: bool,
    req: RequestModel,
    ev: EventModel,
) -> ResponseModel {
    if ev is TimedOut {
        spec_cors(timeout_model())
    } else {
        let inner = if is_preflight(req) {
            preflight_model()
        } else {
            spec_resolver(req, ev)
        };
        spec_cors(
            spec_compress(
                brotli_on,
                gzip_on,
                spec_accepts_opt(req.accept_encoding),
                spec_post(inner),
            ),
        )
    }
}

fn fresh_response(status: u16, body: Vec<u8>, ct: Option<ContentType>) -> (r: Response)
    ensures
        r@ == base_model(status, body@, ct),
{
    Response {
        status,
        body,
        content_type: ct,
        cache_control: false,
        content_encoding: None,
        allow_origin: false,
        allow_headers: false,
    }
}

/// The resolver stage: turns the probe's outcome into the inner response.
pub fn resolver_respond(req: &Request, ev: ServeEvent) -> (r: Response)
    ensures
        r@ == spec_resolver(req@, ev@),
{
    let sanitized = sanitize_path(&req.path);
    match sanitized {
        None => fresh_response(STATUS_NOT_FOUND, Vec::new(), None),
        Some(segs) => match ev {
            ServeEvent::FileOk { body } => {
                let ct = if segs.len() == 0 {
                    ContentType::OctetStream
                } else {
                    content_type_of_name(&segs[segs.len() - 1])
                };
                proof {
                    let g = spec_segments(req@.path)->Some_0;
                    if g.len() > 0 {
                        assert(g.last() == segs@[segs@.len() - 1]@);
                    }
                }
                fresh_response(STATUS_OK, body, Some(ct))
            },
            ServeEvent::FileReadError => fresh_response(STATUS_SERVER_ERROR, Vec::new(), None),
            ServeEvent::NotFound => fresh_response(STATUS_NOT_FOUND, Vec::new(), None),
            ServeEvent::FallbackOk { body } => fresh_response(
                STATUS_OK,
                body,
                Some(ContentType::Html),
            ),
            ServeEvent::FallbackMissing => fresh_response(STATUS_NOT_FOUND, Vec::new(), None),
            ServeEvent::FallbackReadError => fresh_response(
                STATUS_SERVER_ERROR,
                Vec::new(),
                None,
            ),
            ServeEvent::TimedOut => fresh_response(STATUS_NOT_FOUND, Vec::new(), None),
            ServeEvent::NoProbe => fresh_response(STATUS_NOT_FOUND, Vec::new(), None),
        },
    }
}

/// The post-processing stage: sets the cache header if and only if the
/// status is a success; status, body and all other headers are untouched.
pub fn post_process(r: Response) -> (p: Response)
    ensures
        p@ == spec_post(r@),
{
    if 200 <= r.status && r.status <= 299 {
        Response { cache_control: true, ..r }
    } else {
        r
    }
}

/// The compression stage: records the negotiated encoding on a non-empty
/// body; the transport applies it.
pub fn compress_stage(brotli_on: bool, gzip_on: bool, acc: Encodings, r: Response) -> (p: Response)
    ensures
        p@ == spec_compress(brotli_on, gzip_on, acc, r@),
{
    let enc = negotiate(brotli_on, gzip_on, acc);
    if r.body.len() > 0 && enc.is_some() {
        Response { content_encoding: enc, ..r }
    } else {
        r
    }
}

/// The CORS stage: allows any origin and any requested headers, on every
/// response.
pub fn apply_cors(r: Response) -> (p: Response)
    ensures
        p@ == spec_cors(r@),
{
    Response { allow_origin: true, allow_headers: true, ..r }
}

/// The timeout guard's replacement response, already carrying the CORS
/// headers every outgoing response must have.
pub fn timeout_response() -> (r: Response)
    ensures
        r@ == spec_cors(timeout_model()),
{
    apply_cors(fresh_response(STATUS_TIMEOUT, Vec::new(), None))
}

/// Runs the whole pipeline on one request and the event the process
/// observed for it.
pub fn handle(cfg: &Config, req: &Request, ev: ServeEvent) -> (r: Response)
    ensures
        r@ == spec_handle(cfg.brotli, cfg.gzip, req@, ev@),
{
    if matches!(ev, ServeEvent::TimedOut) {
        return timeout_response();
    }
    let inner = if preflight(req) {
        fresh_response(STATUS_OK, Vec::new(), None)
    } else {
        resolver_respond(req, ev)
    };
    let acc = match &req.accept_encoding {
        None => Encodings { br: false, gzip: false },
        Some(h) => parse_accept_encoding(h),
    };
    apply_cors(compress_stage(cfg.brotli, cfg.gzip, acc, post_process(inner)))
}

/// What the process should do with a request before any filesystem work.
pub enum RoutePlan {
    /// Answer the CORS preflight directly, with [`ServeEvent::NoProbe`].
    Preflight,
    /// The path does not resolve below the root: answer with
    /// [`ServeEvent::NoProbe`]; the response is a miss.
    BadPath,
    /// Probe the filesystem for the file these segments name below the
    /// root.
    Probe(Vec<Vec<u8>>),
}

/// Routes one request: preflights are answered directly, unresolved paths
/// are misses, and everything else is probed on the filesystem.
pub fn route(req: &Request) -> (r: RoutePlan)
    ensures
        match r {
            RoutePlan::Preflight => is_preflight(req@),
            RoutePlan::BadPath => !is_preflight(req@) && spec_segments(req@.path) is None,
            RoutePlan::Probe(segs) => {
                &&& !is_preflight(req@)
                &&& spec_segments(req@.path) matches Some(g)
                &&& g.len() == segs@.len()
                &&& forall|k: int| 0 <= k < segs@.len() ==> g[k] == #[trigger] segs@[k]@
            },
        },
{
    if preflight(req) {
        return RoutePlan::Preflight;
    }
    match sanitize_path(&req.path) {
        None => RoutePlan::BadPath,
        Some(segs) => RoutePlan::Probe(segs),
    }
}

/// What the process should do when the probed file does not exist:
/// exactly one miss policy is active per process, fixed by the
/// configuration at startup.
pub enum MissAction {
    /// Fallback routing is off: the miss is final, report
    /// [`ServeEvent::NotFound`].
    Respond404,
    /// Fallback routing is on: probe the fallback file and report one of
    /// the fallback events.
    ProbeFallback,
}

/// Decides the miss policy from the configuration.
pub fn on_miss(cfg: &Config) -> (a: MissAction)
    ensures
        (a is ProbeFallback) == cfg.spa,
        (a is Respond404) == !cfg.spa,
{
    if cfg.spa {
        MissAction::ProbeFallback
    } else {
        MissAction::Respond404
    }
}

/// Law: the post-processor touches nothing but the cache header — status,
/// body and every other header pass through unchanged, and a non-success
/// response passes through whole.
pub proof fn lemma_post_frame(r: ResponseModel)
    ensures
        spec_post(r).status == r.status,
        spec_post(r).body == r.body,
        spec_post(r).content_type == r.content_type,
        spec_post(r).content_encoding == r.content_encoding,
        spec_post(r).allow_origin == r.allow_origin,
        spec_post(r).allow_headers == r.allow_headers,
        !is_success(r.status) ==> spec_post(r) == r,
{
}

/// Law: the compression stage touches nothing but the recorded encoding,
/// and an empty body is never encoded.
pub proof fn lemma_compress_frame(brotli_on: bool, gzip_on: bool, acc: Encodings, r: ResponseModel)
    ensures
        spec_compress(brotli_on, gzip_on, acc, r).status == r.status,
        spec_compress(brotli_on, gzip_on, acc, r).body == r.body,
        spec_compress(brotli_on, gzip_on, acc, r).content_type == r.content_type,
        spec_compress(brotli_on, gzip_on, acc, r).cache_control == r.cache_control,
        spec_compress(brotli_on, gzip_on, acc, r).allow_origin == r.allow_origin,
        spec_compress(brotli_on, gzip_on, acc, r).allow_headers == r.allow_headers,
        r.body.len() == 0 ==> spec_compress(brotli_on, gzip_on, acc, r) == r,
{
}

/// Law: the CORS stage touches nothing but the two allow headers.
pub proof fn lemma_cors_frame(r: ResponseModel)
    ensures
        spec_cors(r).status == r.status,
        spec_cors(r).body == r.body,
        spec_cors(r).content_type == r.content_type,
        spec_cors(r).cache_control == r.cache_control,
        spec_cors(r).content_encoding == r.content_encoding,
{
}

/// Law: a request whose path resolves to an existing readable file is
/// answered 200, and the response body is exactly the file's bytes; any
/// recorded compression is applied reversibly by the transport, so the
/// delivered content decodes to those bytes.
pub proof fn lemma_file_served(brotli_on: bool, gzip_on: bool, req: RequestModel, body: Seq<u8>)
    requires
        !is_preflight(req),
        spec_segments(req.path) is Some,
    ensures
        spec_handle(brotli_on, gzip_on, req, EventModel::FileOk(body)).status == STATUS_OK,
        spec_handle(brotli_on, gzip_on, req, EventModel::FileOk(body)).body == body,
{
}

/// Law: on a miss, exactly the configured fallback policy answers. With
/// fallback routing off the miss is a 404; with it on, the fallback
/// file's bytes are served with status 200.
pub proof fn lemma_miss_policy(
    spa: bool,
    brotli_on: bool,
    gzip_on: bool,
    req: RequestModel,
    fallback_body: Seq<u8>,
)
    requires
        !is_preflight(req),
        spec_segments(req.path) is Some,
    ensures
        !spa ==> {
            let r = spec_handle(brotli_on, gzip_on, req, EventModel::NotFound);
            r.status == STATUS_NOT_FOUND && r.body.len() == 0
        },
        spa ==> {
            let r = spec_handle(brotli_on, gzip_on, req, EventModel::FallbackOk(fallback_body));
            r.status == STATUS_OK && r.body == fallback_body
        },
{
}

/// Law: a response carries `Cache-Control: max-age=600, public` if and
/// only if its status is in the success range; no other stage ever sets
/// or clears it.
pub proof fn lemma_cache_control_iff_success(
    brotli_on: bool,
    gzip_on: bool,
    req: RequestModel,
    ev: EventModel,
)
    ensures
        ({
            let r = spec_handle(brotli_on, gzip_on, req, ev);
            r.cache_control <==> is_success(r.status)
        }),
{
}

/// Law: when both encodings are enabled and the client accepts both, a
/// served file with a non-empty body is encoded with brotli, never gzip.
pub proof fn lemma_brotli_over_gzip(req: RequestModel, body: Seq<u8>)
    requires
        !is_preflight(req),
        spec_segments(req.path) is Some,
        body.len() > 0,
        spec_accepts_opt(req.accept_encoding).br,
        spec_accepts_opt(req.accept_encoding).gzip,
    ensures
        spec_handle(true, true, req, EventModel::FileOk(body)).content_encoding == Some(
            Encoding::Brotli,
        ),
{
}

/// Law: a request whose deadline elapsed is answered with the timeout
/// status, and even that replacement response carries the CORS headers.
pub proof fn lemma_timeout_status(brotli_on: bool, gzip_on: bool, req: RequestModel)
    ensures
        ({
            let r = spec_handle(brotli_on, gzip_on, req, EventModel::TimedOut);
            r.status == STATUS_TIMEOUT && r.allow_origin && r.allow_headers
                && !is_success(r.status)
        }),
{
}

/// Law: every response that leaves the pipeline — success, miss, error,
/// preflight or timeout — carries both CORS allow headers.
pub proof fn lemma_cors_on_every_response(
    brotli_on: bool,
    gzip_on: bool,
    req: RequestModel,
    ev: EventModel,
)
    ensures
        spec_handle(brotli_on, gzip_on, req, ev).allow_origin,
        spec_handle(brotli_on, gzip_on, req, ev).allow_headers,
{
}

} // verus!
