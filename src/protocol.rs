use vstd::prelude::*;

verus! {

/// Outcome class of a response.
#[derive(Debug, Clone, Copy, PartialEq, Eq, Structural)]
pub enum L7ResponseStatus {
    Normal,
    ClientError,
    ServerError,
}

impl Default for L7ResponseStatus {
    fn default() -> (r: Self)
        ensures
            r == L7ResponseStatus::Normal,
    {
        L7ResponseStatus::Normal
    }
}

/// Which part of an exchange a log describes.
#[derive(Debug, Clone, Copy, PartialEq, Eq, Structural)]
pub enum LogMessageType {
    Request,
    Response,
    Session,
    Other,
}

impl Default for LogMessageType {
    fn default() -> (r: Self)
        ensures
            r == LogMessageType::Other,
    {
        LogMessageType::Other
    }
}

/// Application-layer protocol of a log.
#[derive(Debug, Clone, Copy, PartialEq, Eq, Structural)]
pub enum L7Protocol {
    Unknown,
    Custom,
}

/// What the flow tracker needs to know of a decoded record.
#[derive(Debug, Clone, Copy, PartialEq, Eq, Structural)]
pub struct AppProtoHead {
    pub proto: L7Protocol,
    pub msg_type: LogMessageType,
    pub rrt: u64,
}

/// A key and a value, both text.
#[derive(Debug, Clone)]
pub struct KeyVal {
    pub key: String,
    pub val: String,
}

impl View for KeyVal {
    type V = (Seq<char>, Seq<char>);

    open spec fn view(&self) -> (Seq<char>, Seq<char>) {
        (self.key@, self.val@)
    }
}

/// The views of a list of pairs, in order.
pub open spec fn pairs_view(v: Seq<KeyVal>) -> Seq<(Seq<char>, Seq<char>)> {
    v.map_values(|kv: KeyVal| kv@)
}

/// The view of an optional text.
pub open spec fn opt_str_view(o: Option<String>) -> Option<Seq<char>> {
    match o {
        Some(s) => Some(s@),
        None => None,
    }
}

/// Request block of the canonical log.
#[derive(Debug, Clone)]
pub struct L7Request {
    pub req_type: String,
    pub domain: String,
    pub resource: String,
    pub endpoint: String,
}

/// Response block of the canonical log.
#[derive(Debug, Clone)]
pub struct L7Response {
    pub status: L7ResponseStatus,
    pub code: Option<i32>,
    pub exception: String,
    pub result: String,
}

/// Trace block of the canonical log.
#[derive(Debug, Clone)]
pub struct TraceInfo {
    pub trace_id: Option<String>,
    pub span_id: Option<String>,
    pub parent_span_id: Option<String>,
}

/// Extension block of the canonical log.
#[derive(Debug, Clone)]
pub struct ExtendedInfo {
    pub request_id: Option<u32>,
    pub attributes: Option<Vec<KeyVal>>,
}

/// The canonical log that the agent emits for one exchange.
#[derive(Debug, Clone)]
pub struct L7ProtocolSendLog {
    pub req_len: Option<u32>,
    pub resp_len: Option<u32>,
    pub req: L7Request,
    pub resp: L7Response,
    pub trace_info: Option<TraceInfo>,
    pub ext_info: Option<ExtendedInfo>,
}

} // verus!
