//! Request translation: mapping one upstream RPC outcome to one HTTP
//! reply, and the compression negotiation rule for the scrape call.
//!
//! Every inbound scrape triggers exactly one fresh RPC call; the reply
//! is a pure function of that call's outcome. A successful call is
//! passed through verbatim as a success reply; a failed call becomes a
//! server-error reply carrying the failure's kind and message, never a
//! crash of the serving process.

use vstd::prelude::*;

verus! {

/// Success status of an HTTP reply.
pub const STATUS_OK: u16 = 200;

/// The server-error status used for a failed upstream call.
pub const STATUS_BAD_GATEWAY: u16 = 502;

/// The request message of the producer's unary scrape method.
/// It carries no fields: there is exactly one operation and no
/// parameters. A fresh value is made for every translation.
pub struct MetricsRequest {}

impl MetricsRequest {
    /// Builds the empty marker request for one scrape call.
    pub fn new() -> MetricsRequest {
        MetricsRequest {}
    }
}

/// The response message of the producer's scrape method: one opaque
/// text field holding the full exposition-format payload.
pub struct MetricsResponse {
    pub text: String,
}

/// The kind of an upstream RPC failure.
#[derive(Clone, Copy, Debug, PartialEq, Eq, Structural)]
pub enum RpcErrorKind {
    /// The call did not complete in time.
    Timeout,
    /// The channel could not carry the call (the producer became
    /// unreachable, the connection broke).
    Transport,
    /// The producer answered with an application-level error.
    Remote,
}

/// An upstream RPC failure, with its diagnostic message.
pub struct RpcError {
    pub kind: RpcErrorKind,
    pub message: String,
}

/// An HTTP reply as the listener writes it: a status code and a body.
pub struct HttpReply {
    pub status: u16,
    pub body: String,
}

impl HttpReply {
    /// Whether the status is in the server-error class.
    pub open spec fn is_server_error(self) -> bool {
        500 <= self.status < 600
    }
}

/// The short label of a failure kind.
pub open spec fn kind_label(k: RpcErrorKind) -> Seq<char> {
    match k {
        RpcErrorKind::Timeout => "timeout"@,
        RpcErrorKind::Transport => "transport error"@,
        RpcErrorKind::Remote => "upstream error"@,
    }
}

/// The body of a server-error reply: the failure's kind and message,
/// so that the cause is never silently swallowed.
pub open spec fn failure_body(e: RpcError) -> Seq<char> {
    "metrics scrape failed: "@ + kind_label(e.kind) + ": "@ + e.message@
}

/// The status the gateway owes for a given RPC outcome: success is
/// returned exactly when the upstream call succeeded.
pub open spec fn reply_status(outcome: Result<MetricsResponse, RpcError>) -> u16 {
    match outcome {
        Ok(_) => STATUS_OK,
        Err(_) => STATUS_BAD_GATEWAY,
    }
}

/// The body the gateway owes for a given RPC outcome: the payload
/// verbatim on success, the failure description otherwise.
pub open spec fn reply_body(outcome: Result<MetricsResponse, RpcError>) -> Seq<char> {
    match outcome {
        Ok(resp) => resp.text@,
        Err(e) => failure_body(e),
    }
}

/// The fixed body of the liveness endpoint at the root path.
pub open spec fn index_body() -> Seq<char> {
    "# Use /metrics to obtain Prometheus metrics from this service."@
}

/// The reply of the liveness endpoint. It takes no channel and no
/// producer state at all, so it is success with the fixed body on
/// every call, in particular while the producer is unreachable.
pub fn index_reply() -> (r: HttpReply)
    ensures
        r.status == STATUS_OK,
        r.body@ == index_body(),
{
    HttpReply {
        status: STATUS_OK,
        body: "# Use /metrics to obtain Prometheus metrics from this service.".to_owned(),
    }
}

/// The label of a failure kind, as text.
fn kind_label_str(k: RpcErrorKind) -> (s: &'static str)
    ensures
        s@ == kind_label(k),
{
    match k {
        RpcErrorKind::Timeout => "timeout",
        RpcErrorKind::Transport => "transport error",
        RpcErrorKind::Remote => "upstream error",
    }
}

/// Translates the outcome of one scrape RPC into the HTTP reply owed
/// for it.
///
/// On success the payload text becomes the whole body, with no
/// re-encoding and no truncation; on failure the reply is a
/// server-error response carrying the failure's kind and message. The
/// function is total: a failed call is answered, never propagated as a
/// crash, and no outcome is retried or cached.
pub fn translate(outcome: Result<MetricsResponse, RpcError>) -> (r: HttpReply)
    ensures
        r.status == reply_status(outcome),
        r.body@ == reply_body(outcome),
        r.status == STATUS_OK <==> outcome is Ok,
        outcome is Err ==> r.is_server_error(),
{
    match outcome {
        Ok(resp) => HttpReply { status: STATUS_OK, body: resp.text },
        Err(e) => {
            let mut body = String::from_str("metrics scrape failed: ");
            body.append(kind_label_str(e.kind));
            body.append(": ");
            body.append(e.message.as_str());
            proof {
                assert(body@ =~= failure_body(e));
            }
            HttpReply { status: STATUS_BAD_GATEWAY, body }
        },
    }
}

/// The plan of one scrape call: the fresh request to send and the
/// compression declared for it.
pub struct ScrapeCall {
    /// The empty request, made anew for this call and never reused.
    pub request: MetricsRequest,
    /// Whether the outbound payload is declared compressed.
    pub send_compressed: bool,
    /// Whether a compressed inbound payload is accepted.
    pub accept_compressed: bool,
}

/// Plans one scrape call. Every inbound request leads to exactly one
/// such call — nothing is cached, nothing is retried — and the call
/// declares compression in both directions; whether the payload then
/// travels compressed is settled by negotiation with the peer.
pub fn plan_scrape() -> (c: ScrapeCall)
    ensures
        c.send_compressed,
        c.accept_compressed,
{
    ScrapeCall { request: MetricsRequest::new(), send_compressed: true, accept_compressed: true }
}

/// Whether a payload travels compressed: the meet of what this side
/// requested and what the peer supports.
pub open spec fn negotiated(requested: bool, peer_supports: bool) -> bool {
    requested && peer_supports
}

/// Whether a payload travels compressed on the channel.
///
/// Compression is requested on every scrape call, but a peer that does
/// not support it must be served uncompressed rather than failed: the
/// effective encoding is the meet of what was requested and what the
/// peer supports, and negotiating it can never fail.
pub fn negotiated_compression(requested: bool, peer_supports: bool) -> (r: bool)
    ensures
        r == negotiated(requested, peer_supports),
{
    requested && peer_supports
}

/// Requesting compression from a peer that does not support it falls
/// back to an uncompressed transfer, and the reply owed for the call's
/// outcome is unchanged by the fallback: the body is still the payload
/// verbatim and the status still reflects the outcome alone.
pub proof fn lemma_uncompressed_fallback(
    requested: bool,
    peer_supports: bool,
    outcome: Result<MetricsResponse, RpcError>,
)
    requires
        !peer_supports,
    ensures
        !negotiated(requested, peer_supports),
        outcome matches Ok(resp) ==> reply_status(outcome) == STATUS_OK && reply_body(outcome)
            == resp.text@,
{
}

/// Listener independence: two replies each produced for the same RPC
/// outcome — as when the same scrape is served through two bound
/// addresses — have the same status and the same body, since the reply
/// is a function of the outcome alone.
pub proof fn lemma_listener_independence(
    r1: HttpReply,
    r2: HttpReply,
    outcome: Result<MetricsResponse, RpcError>,
)
    requires
        r1.status == reply_status(outcome),
        r1.body@ == reply_body(outcome),
        r2.status == reply_status(outcome),
        r2.body@ == reply_body(outcome),
    ensures
        r1.status == r2.status,
        r1.body@ == r2.body@,
{
}

} // verus!
