use vstd::prelude::*;

use crate::plugin::{CustomInfo, CustomInfoView, RequestView, RespView, TraceView};
use crate::protocol::{
    opt_str_view, pairs_view, ExtendedInfo, KeyVal, L7ProtocolSendLog, L7Request, L7Response,
    TraceInfo,
};

verus! {

/// The extension block of a log, as text.
pub ghost struct ExtendedInfoView {
    pub request_id: Option<u32>,
    pub attributes: Option<Seq<(Seq<char>, Seq<char>)>>,
}

/// A canonical log, as text.
pub ghost struct SendLogView {
    pub req_len: Option<u32>,
    pub resp_len: Option<u32>,
    pub req: RequestView,
    pub resp: RespView,
    pub trace_info: Option<TraceView>,
    pub ext_info: Option<ExtendedInfoView>,
}

impl View for L7ProtocolSendLog {
    type V = SendLogView;

    open spec fn view(&self) -> SendLogView {
        SendLogView {
            req_len: self.req_len,
            resp_len: self.resp_len,
            req: RequestView {
                req_type: self.req.req_type@,
                domain: self.req.domain@,
                resource: self.req.resource@,
                endpoint: self.req.endpoint@,
            },
            resp: RespView {
                status: self.resp.status,
                code: self.resp.code,
                exception: self.resp.exception@,
                result: self.resp.result@,
            },
            trace_info: match self.trace_info {
                Some(t) => Some(
                    TraceView {
                        trace_id: opt_str_view(t.trace_id),
                        span_id: opt_str_view(t.span_id),
                        parent_span_id: opt_str_view(t.parent_span_id),
                    },
                ),
                None => None,
            },
            ext_info: match self.ext_info {
                Some(e) => Some(
                    ExtendedInfoView {
                        request_id: e.request_id,
                        attributes: match e.attributes {
                            Some(a) => Some(pairs_view(a@)),
                            None => None,
                        },
                    },
                ),
                None => None,
            },
        }
    }
}

/// Whether a record carries any trace identifier.
pub open spec fn has_trace(t: TraceView) -> bool {
    t.trace_id is Some || t.span_id is Some || t.parent_span_id is Some
}

/// The canonical log of a record: the protocol name is appended as the attribute
/// `custom_proto_str`, the request and response blocks are always there, the trace
/// block only where some identifier is set, and the id and attributes go to the
/// extension block.
pub open spec fn send_log_of(w: CustomInfoView) -> SendLogView {
    SendLogView {
        req_len: w.req_len,
        resp_len: w.resp_len,
        req: w.req,
        resp: w.resp,
        trace_info: if has_trace(w.trace) {
            Some(w.trace)
        } else {
            None
        },
        ext_info: Some(
            ExtendedInfoView {
                request_id: w.request_id,
                attributes: Some(w.attributes.push(("custom_proto_str"@, w.proto_str))),
            },
        ),
    }
}

impl CustomInfo {
    /// Turns the record into the canonical log.
    pub fn to_send_log(self) -> (r: L7ProtocolSendLog)
        ensures
            r@ == send_log_of(self@),
    {
        let ghost w = self@;
        let mut attributes = self.attributes;
        let ghost prev = attributes@;
        let kv = KeyVal { key: "custom_proto_str".to_owned(), val: self.proto_str };
        attributes.push(kv);
        assert(pairs_view(attributes@) =~= pairs_view(prev).push(kv@));
        let has_trace = self.trace.trace_id.is_some() || self.trace.span_id.is_some()
            || self.trace.parent_span_id.is_some();
        let trace_info = if has_trace {
            Some(
                TraceInfo {
                    trace_id: self.trace.trace_id,
                    span_id: self.trace.span_id,
                    parent_span_id: self.trace.parent_span_id,
                },
            )
        } else {
            None
        };
        L7ProtocolSendLog {
            req_len: self.req_len,
            resp_len: self.resp_len,
            req: L7Request {
                req_type: self.req.req_type,
                domain: self.req.domain,
                resource: self.req.resource,
                endpoint: self.req.endpoint,
            },
            resp: L7Response {
                status: self.resp.status,
                code: self.resp.code,
                exception: self.resp.exception,
                result: self.resp.result,
            },
            trace_info,
            ext_info: Some(ExtendedInfo { request_id: self.request_id, attributes: Some(attributes) }),
        }
    }
}

impl From<CustomInfo> for L7ProtocolSendLog {
    fn from(w: CustomInfo) -> (r: Self)
        ensures
            r@ == send_log_of(w@),
    {
        w.to_send_log()
    }
}

impl vstd::std_specs::convert::FromSpecImpl<CustomInfo> for L7ProtocolSendLog {
    open spec fn obeys_from_spec() -> bool {
        false
    }

    closed spec fn from_spec(v: CustomInfo) -> L7ProtocolSendLog {
        arbitrary()
    }
}

} // verus!
