use vstd::prelude::*;

use crate::protocol::{
    opt_str_view, pairs_view, AppProtoHead, KeyVal, L7Protocol, L7ResponseStatus, LogMessageType,
};

verus! {

/// Direction in which a payload was seen.
#[derive(Debug, Clone, Copy, PartialEq, Eq, Structural)]
pub enum PacketDirection {
    ClientToServer,
    ServerToClient,
}

/// The part of the layout that could not be read because the buffer ended.
#[derive(Debug, Clone, Copy, PartialEq, Eq, Structural)]
pub enum Stage {
    Header,
    CorrelationId,
    Request,
    Response,
    Code,
    TraceFlag,
    Trace,
    KvFlag,
}

/// A one-byte presence flag of the layout.
#[derive(Debug, Clone, Copy, PartialEq, Eq, Structural)]
pub enum FlagField {
    HasCorrelationId,
    HasCode,
    HasTrace,
    HasKv,
}

/// Why a payload could not be decoded.
#[derive(Debug, Clone, Copy, PartialEq, Eq, Structural)]
pub enum DecodeError {
    /// The buffer ended before a mandatory field.
    TooShort(Stage),
    /// A presence flag held a value other than 0 or 1.
    InvalidFlag(FlagField),
    /// The response status byte was not 0, 2 or 3.
    InvalidStatus,
}

/// Request side of a record.
#[derive(Debug, Clone)]
pub struct CustomInfoRequest {
    pub req_type: String,
    pub domain: String,
    pub resource: String,
    pub endpoint: String,
}

/// Response side of a record.
#[derive(Debug, Clone)]
pub struct CustomInfoResp {
    pub status: L7ResponseStatus,
    pub code: Option<i32>,
    pub exception: String,
    pub result: String,
}

/// Trace context of a record; each identifier is optional on its own.
#[derive(Debug, Clone)]
pub struct CustomInfoTrace {
    pub trace_id: Option<String>,
    pub span_id: Option<String>,
    pub parent_span_id: Option<String>,
}

/// One decoded record of a plugin-described protocol.
#[derive(Debug, Clone)]
pub struct CustomInfo {
    pub proto: u8,
    pub proto_str: String,
    pub msg_type: LogMessageType,
    pub rrt: u64,
    pub req_len: Option<u32>,
    pub resp_len: Option<u32>,
    pub request_id: Option<u32>,
    pub req: CustomInfoRequest,
    pub resp: CustomInfoResp,
    pub trace: CustomInfoTrace,
    pub attributes: Vec<KeyVal>,
}

/// The request side of a record, as text.
pub ghost struct RequestView {
    pub req_type: Seq<char>,
    pub domain: Seq<char>,
    pub resource: Seq<char>,
    pub endpoint: Seq<char>,
}

/// The response side of a record, as text.
pub ghost struct RespView {
    pub status: L7ResponseStatus,
    pub code: Option<i32>,
    pub exception: Seq<char>,
    pub result: Seq<char>,
}

/// The trace context of a record, as text.
pub ghost struct TraceView {
    pub trace_id: Option<Seq<char>>,
    pub span_id: Option<Seq<char>>,
    pub parent_span_id: Option<Seq<char>>,
}

/// A record with every string seen as its characters and the attributes as pairs.
pub ghost struct CustomInfoView {
    pub proto: u8,
    pub proto_str: Seq<char>,
    pub msg_type: LogMessageType,
    pub rrt: u64,
    pub req_len: Option<u32>,
    pub resp_len: Option<u32>,
    pub request_id: Option<u32>,
    pub req: RequestView,
    pub resp: RespView,
    pub trace: TraceView,
    pub attributes: Seq<(Seq<char>, Seq<char>)>,
}

impl View for CustomInfoRequest {
    type V = RequestView;

    open spec fn view(&self) -> RequestView {
        RequestView {
            req_type: self.req_type@,
            domain: self.domain@,
            resource: self.resource@,
            endpoint: self.endpoint@,
        }
    }
}

impl View for CustomInfoResp {
    type V = RespView;

    open spec fn view(&self) -> RespView {
        RespView {
            status: self.status,
            code: self.code,
            exception: self.exception@,
            result: self.result@,
        }
    }
}

impl View for CustomInfoTrace {
    type V = TraceView;

    open spec fn view(&self) -> TraceView {
        TraceView {
            trace_id: opt_str_view(self.trace_id),
            span_id: opt_str_view(self.span_id),
            parent_span_id: opt_str_view(self.parent_span_id),
        }
    }
}

impl View for CustomInfo {
    type V = CustomInfoView;

    open spec fn view(&self) -> CustomInfoView {
        CustomInfoView {
            proto: self.proto,
            proto_str: self.proto_str@,
            msg_type: self.msg_type,
            rrt: self.rrt,
            req_len: self.req_len,
            resp_len: self.resp_len,
            request_id: self.request_id,
            req: self.req@,
            resp: self.resp@,
            trace: self.trace@,
            attributes: pairs_view(self.attributes@),
        }
    }
}

/// A request side with every string empty.
pub open spec fn empty_request() -> RequestView {
    RequestView {
        req_type: Seq::empty(),
        domain: Seq::empty(),
        resource: Seq::empty(),
        endpoint: Seq::empty(),
    }
}

/// A response side with the normal status, no code and empty strings.
pub open spec fn empty_resp() -> RespView {
    RespView {
        status: L7ResponseStatus::Normal,
        code: None,
        exception: Seq::empty(),
        result: Seq::empty(),
    }
}

/// A trace context with no identifier.
pub open spec fn empty_trace() -> TraceView {
    TraceView { trace_id: None, span_id: None, parent_span_id: None }
}

impl Default for CustomInfoRequest {
    fn default() -> (r: Self)
        ensures
            r@ == empty_request(),
    {
        CustomInfoRequest {
            req_type: String::new(),
            domain: String::new(),
            resource: String::new(),
            endpoint: String::new(),
        }
    }
}

impl Default for CustomInfoResp {
    fn default() -> (r: Self)
        ensures
            r@ == empty_resp(),
    {
        CustomInfoResp {
            status: L7ResponseStatus::Normal,
            code: None,
            exception: String::new(),
            result: String::new(),
        }
    }
}

impl Default for CustomInfoTrace {
    fn default() -> (r: Self)
        ensures
            r@ == empty_trace(),
    {
        CustomInfoTrace { trace_id: None, span_id: None, parent_span_id: None }
    }
}

/// A record with no field set: what decoding starts from.
pub open spec fn empty_info() -> CustomInfoView {
    CustomInfoView {
        proto: 0,
        proto_str: Seq::empty(),
        msg_type: LogMessageType::Other,
        rrt: 0,
        req_len: None,
        resp_len: None,
        request_id: None,
        req: empty_request(),
        resp: empty_resp(),
        trace: empty_trace(),
        attributes: Seq::empty(),
    }
}

impl Default for CustomInfo {
    fn default() -> (r: Self)
        ensures
            r@ == empty_info(),
    {
        let r = CustomInfo {
            proto: 0,
            proto_str: String::new(),
            msg_type: LogMessageType::Other,
            rrt: 0,
            req_len: None,
            resp_len: None,
            request_id: None,
            req: CustomInfoRequest::default(),
            resp: CustomInfoResp::default(),
            trace: CustomInfoTrace::default(),
            attributes: Vec::new(),
        };
        assert(r@.attributes =~= Seq::empty());
        r
    }
}

} // verus!

verus! {

/// A decoded record as the flow tracker holds it: a record of this kind, or one of
/// another protocol, whose fields are not modelled here.
#[derive(Debug, Clone)]
pub enum L7ProtocolInfo {
    CustomInfo(CustomInfo),
    Other(L7Protocol),
}

/// The identifier at `incoming`'s place where `base` has none: the first writer wins.
pub open spec fn first_set(base: Option<Seq<char>>, incoming: Option<Seq<char>>) -> Option<Seq<char>> {
    if base is Some {
        base
    } else {
        incoming
    }
}

/// `base` after the counterpart `incoming` is merged into it: the response is replaced,
/// each trace identifier is taken only where `base` has none, the attributes are
/// appended, and every other field is kept.
pub open spec fn merged(base: CustomInfoView, incoming: CustomInfoView) -> CustomInfoView {
    CustomInfoView {
        resp: incoming.resp,
        trace: TraceView {
            trace_id: first_set(base.trace.trace_id, incoming.trace.trace_id),
            span_id: first_set(base.trace.span_id, incoming.trace.span_id),
            parent_span_id: first_set(base.trace.parent_span_id, incoming.trace.parent_span_id),
        },
        attributes: base.attributes + incoming.attributes,
        ..base
    }
}

impl CustomInfo {
    /// The id that pairs a request record with its response record.
    pub fn session_id(&self) -> (r: Option<u32>)
        ensures
            r == self.request_id,
    {
        self.request_id
    }

    /// Merges the counterpart `other` into `self`; a record of another protocol
    /// changes nothing. Returns whether a merge took place.
    pub fn merge_log(&mut self, other: L7ProtocolInfo) -> (r: bool)
        ensures
            match other {
                L7ProtocolInfo::CustomInfo(w) => r && final(self)@ == merged(old(self)@, w@),
                L7ProtocolInfo::Other(_) => !r && final(self)@ == old(self)@,
            },
    {
        match other {
            L7ProtocolInfo::CustomInfo(w) => {
                let mut w = w;
                let ghost before = self@;
                let ghost incoming = w@;
                self.resp = w.resp;
                if self.trace.trace_id.is_none() {
                    self.trace.trace_id = w.trace.trace_id;
                }
                if self.trace.span_id.is_none() {
                    self.trace.span_id = w.trace.span_id;
                }
                if self.trace.parent_span_id.is_none() {
                    self.trace.parent_span_id = w.trace.parent_span_id;
                }
                let ghost prev = self.attributes@;
                let ghost added = w.attributes@;
                self.attributes.append(&mut w.attributes);
                assert(pairs_view(prev + added) =~= pairs_view(prev) + pairs_view(added));
                assert(self@ == merged(before, incoming));
                true
            },
            L7ProtocolInfo::Other(_) => false,
        }
    }

    /// What the flow tracker needs to know of this record.
    pub fn app_proto_head(&self) -> (r: Option<AppProtoHead>)
        ensures
            r == Some(AppProtoHead { proto: L7Protocol::Custom, msg_type: self.msg_type, rrt: self.rrt }),
    {
        Some(AppProtoHead { proto: L7Protocol::Custom, msg_type: self.msg_type, rrt: self.rrt })
    }

    /// Records of this kind are never carried over TLS.
    pub fn is_tls(&self) -> (r: bool)
        ensures
            !r,
    {
        false
    }
}

} // verus!
