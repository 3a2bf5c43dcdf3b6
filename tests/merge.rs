use l7_custom::plugin::{CustomInfo, L7ProtocolInfo, PacketDirection};
use l7_custom::protocol::{KeyVal, L7Protocol, L7ProtocolSendLog, L7ResponseStatus};

fn put_str(buf: &mut Vec<u8>, s: &str) {
    buf.extend_from_slice(&(s.len() as u16).to_be_bytes());
    buf.extend_from_slice(s.as_bytes());
}

fn request(trace: Option<&str>, attrs: &[(&str, &str)]) -> CustomInfo {
    let mut buf = vec![0x80, 0, 0, 4, 0, 0, 0, 0, 1, 0, 0, 0, 9];
    for s in ["GET", "/", "host", "res"] {
        put_str(&mut buf, s);
    }
    push_trailer(&mut buf, trace, attrs);
    CustomInfo::decode(&buf, PacketDirection::ClientToServer).unwrap()
}

fn response(trace: Option<&str>, attrs: &[(&str, &str)]) -> CustomInfo {
    let mut buf = vec![0, 0, 0, 0, 0x80, 0, 0, 8, 1, 0, 0, 0, 9, 2, 1, 0, 0, 1, 0x94];
    put_str(&mut buf, "ok");
    put_str(&mut buf, "none");
    push_trailer(&mut buf, trace, attrs);
    CustomInfo::decode(&buf, PacketDirection::ServerToClient).unwrap()
}

fn push_trailer(buf: &mut Vec<u8>, trace: Option<&str>, attrs: &[(&str, &str)]) {
    match trace {
        Some(t) => {
            buf.push(1);
            put_str(buf, t);
            put_str(buf, "span");
            put_str(buf, "parent");
        }
        None => buf.push(0),
    }
    buf.push(1);
    for (k, v) in attrs {
        put_str(buf, k);
        put_str(buf, v);
    }
}

fn pairs(attrs: &[KeyVal]) -> Vec<(String, String)> {
    attrs.iter().map(|kv| (kv.key.clone(), kv.val.clone())).collect()
}

#[test]
fn merge_takes_response_and_appends_attributes() {
    let mut base = request(None, &[("a", "1")]);
    let incoming = response(Some("t-resp"), &[("b", "2")]);
    assert!(base.merge_log(L7ProtocolInfo::CustomInfo(incoming)));
    assert_eq!(base.req.req_type, "GET");
    assert_eq!(base.req_len, Some(4));
    assert_eq!(base.resp_len, None);
    assert_eq!(base.request_id, Some(9));
    assert_eq!(base.resp.status, L7ResponseStatus::ClientError);
    assert_eq!(base.resp.code, Some(404));
    assert_eq!(base.resp.result, "ok");
    assert_eq!(base.resp.exception, "none");
    assert_eq!(base.trace.trace_id.as_deref(), Some("t-resp"));
    assert_eq!(
        pairs(&base.attributes),
        vec![("a".to_string(), "1".to_string()), ("b".to_string(), "2".to_string())]
    );
}

#[test]
fn merging_twice_duplicates_attributes() {
    let mut base = request(None, &[("a", "1")]);
    let incoming = response(None, &[("b", "2")]);
    assert!(base.merge_log(L7ProtocolInfo::CustomInfo(incoming.clone())));
    assert!(base.merge_log(L7ProtocolInfo::CustomInfo(incoming)));
    assert_eq!(
        pairs(&base.attributes),
        vec![
            ("a".to_string(), "1".to_string()),
            ("b".to_string(), "2".to_string()),
            ("b".to_string(), "2".to_string()),
        ]
    );
}

#[test]
fn set_trace_id_is_kept() {
    let mut base = request(Some("t-req"), &[]);
    let incoming = response(Some("t-resp"), &[]);
    assert!(base.merge_log(L7ProtocolInfo::CustomInfo(incoming)));
    assert_eq!(base.trace.trace_id.as_deref(), Some("t-req"));
}

#[test]
fn unset_trace_id_is_taken() {
    let mut base = request(None, &[]);
    let incoming = response(Some("t-resp"), &[]);
    assert!(base.merge_log(L7ProtocolInfo::CustomInfo(incoming)));
    assert_eq!(base.trace.trace_id.as_deref(), Some("t-resp"));
    assert_eq!(base.trace.span_id.as_deref(), Some("span"));
    assert_eq!(base.trace.parent_span_id.as_deref(), Some("parent"));
}

#[test]
fn other_protocol_is_ignored() {
    let mut base = request(None, &[("a", "1")]);
    assert!(!base.merge_log(L7ProtocolInfo::Other(L7Protocol::Unknown)));
    assert_eq!(base.resp.status, L7ResponseStatus::Normal);
    assert_eq!(base.attributes.len(), 1);
}

#[test]
fn send_log_without_trace() {
    let mut info = request(None, &[("a", "1")]);
    info.proto_str = "myproto".to_string();
    let log = info.to_send_log();
    assert_eq!(log.req_len, Some(4));
    assert_eq!(log.resp_len, None);
    assert_eq!(log.req.req_type, "GET");
    assert_eq!(log.req.endpoint, "/");
    assert_eq!(log.req.domain, "host");
    assert_eq!(log.req.resource, "res");
    assert_eq!(log.resp.status, L7ResponseStatus::Normal);
    assert!(log.trace_info.is_none());
    let ext = log.ext_info.unwrap();
    assert_eq!(ext.request_id, Some(9));
    assert_eq!(
        pairs(&ext.attributes.unwrap()),
        vec![
            ("a".to_string(), "1".to_string()),
            ("custom_proto_str".to_string(), "myproto".to_string()),
        ]
    );
}

#[test]
fn send_log_with_trace() {
    let info = response(Some("t"), &[]);
    let log = L7ProtocolSendLog::from(info);
    let trace = log.trace_info.unwrap();
    assert_eq!(trace.trace_id.as_deref(), Some("t"));
    assert_eq!(trace.span_id.as_deref(), Some("span"));
    assert_eq!(trace.parent_span_id.as_deref(), Some("parent"));
    assert_eq!(log.resp.code, Some(404));
    assert_eq!(log.resp_len, Some(8));
}
