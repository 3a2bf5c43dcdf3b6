use l7_custom::plugin::{
    CustomInfo, DecodeError, FlagField, L7ProtocolInfo, PacketDirection, Stage,
};
use l7_custom::protocol::{L7Protocol, L7ResponseStatus, LogMessageType};

fn put_str(buf: &mut Vec<u8>, s: &str) {
    buf.extend_from_slice(&(s.len() as u16).to_be_bytes());
    buf.extend_from_slice(s.as_bytes());
}

fn header(flag: u8) -> Vec<u8> {
    vec![0, 0, 0, 0, 0, 0, 0, 0, flag]
}

fn c2s(buf: &[u8]) -> Result<CustomInfo, DecodeError> {
    CustomInfo::decode(buf, PacketDirection::ClientToServer)
}

fn s2c(buf: &[u8]) -> Result<CustomInfo, DecodeError> {
    CustomInfo::decode(buf, PacketDirection::ServerToClient)
}

fn too_short(r: Result<CustomInfo, DecodeError>) -> Option<Stage> {
    match r {
        Err(DecodeError::TooShort(s)) => Some(s),
        _ => None,
    }
}

fn invalid_flag(r: Result<CustomInfo, DecodeError>) -> Option<FlagField> {
    match r {
        Err(DecodeError::InvalidFlag(f)) => Some(f),
        _ => None,
    }
}

#[test]
fn short_buffers_fail_on_the_header() {
    for n in 0..9 {
        let buf = vec![0u8; n];
        assert_eq!(too_short(c2s(&buf)), Some(Stage::Header));
        assert_eq!(too_short(s2c(&buf)), Some(Stage::Header));
    }
}

#[test]
fn nine_zero_bytes_client_to_server() {
    let buf = [0u8, 0, 0, 0, 0, 0, 0, 0, 0];
    assert_eq!(too_short(c2s(&buf)), Some(Stage::Request));
}

#[test]
fn empty_request_strings() {
    let mut buf = header(0);
    buf.extend_from_slice(&[0, 0, 0, 0, 0, 0, 0, 0]);
    buf.extend_from_slice(&[0, 0]);
    let info = c2s(&buf).unwrap();
    assert_eq!(info.req_len, None);
    assert_eq!(info.resp_len, None);
    assert_eq!(info.request_id, None);
    assert_eq!(info.session_id(), None);
    assert_eq!(info.req.req_type, "");
    assert_eq!(info.req.endpoint, "");
    assert_eq!(info.req.domain, "");
    assert_eq!(info.req.resource, "");
    assert!(info.trace.trace_id.is_none());
    assert!(info.trace.span_id.is_none());
    assert!(info.trace.parent_span_id.is_none());
    assert!(info.attributes.is_empty());
}

#[test]
fn server_error_with_negative_code() {
    let mut buf = header(0);
    buf.extend_from_slice(&[3, 1, 0xff, 0xff, 0xff, 0xff]);
    buf.extend_from_slice(&[0, 0, 0, 0]);
    buf.extend_from_slice(&[0, 0]);
    let info = s2c(&buf).unwrap();
    assert_eq!(info.resp.status, L7ResponseStatus::ServerError);
    assert_eq!(info.resp.code, Some(-1));
    assert_eq!(info.resp.result, "");
    assert_eq!(info.resp.exception, "");
}

#[test]
fn truncated_second_pair_ends_the_attributes() {
    let mut buf = header(0);
    for s in ["t", "e", "d", "r"] {
        put_str(&mut buf, s);
    }
    buf.push(0);
    buf.push(1);
    put_str(&mut buf, "key");
    put_str(&mut buf, "value");
    buf.push(0);
    let info = c2s(&buf).unwrap();
    assert_eq!(info.attributes.len(), 1);
    assert_eq!(info.attributes[0].key, "key");
    assert_eq!(info.attributes[0].val, "value");
}

#[test]
fn full_request_fields_in_wire_order() {
    let mut buf = vec![0x80, 0, 0, 0x10, 0x7f, 0xff, 0xff, 0xff, 1, 0, 0, 0x01, 0x02];
    for s in ["GET", "/api", "example.com", "users"] {
        put_str(&mut buf, s);
    }
    buf.push(1);
    for s in ["trace-1", "span-2", "parent-3"] {
        put_str(&mut buf, s);
    }
    buf.push(1);
    put_str(&mut buf, "a");
    put_str(&mut buf, "1");
    put_str(&mut buf, "a");
    put_str(&mut buf, "2");
    let info = c2s(&buf).unwrap();
    assert_eq!(info.req_len, Some(0x10));
    assert_eq!(info.resp_len, None);
    assert_eq!(info.request_id, Some(0x0102));
    assert_eq!(info.session_id(), Some(0x0102));
    assert_eq!(info.req.req_type, "GET");
    assert_eq!(info.req.endpoint, "/api");
    assert_eq!(info.req.domain, "example.com");
    assert_eq!(info.req.resource, "users");
    assert_eq!(info.resp.status, L7ResponseStatus::Normal);
    assert_eq!(info.trace.trace_id.as_deref(), Some("trace-1"));
    assert_eq!(info.trace.span_id.as_deref(), Some("span-2"));
    assert_eq!(info.trace.parent_span_id.as_deref(), Some("parent-3"));
    assert_eq!(info.attributes.len(), 2);
    assert_eq!(info.attributes[1].key, "a");
    assert_eq!(info.attributes[1].val, "2");
}

#[test]
fn length_words_mask_the_presence_bit() {
    let mut buf = vec![0xff, 0xff, 0xff, 0xff, 0x80, 0, 0, 0, 0];
    buf.extend_from_slice(&[0, 0, 0, 0, 0, 0, 0, 0, 0, 0]);
    let info = c2s(&buf).unwrap();
    assert_eq!(info.req_len, Some(0x7fff_ffff));
    assert_eq!(info.resp_len, Some(0));
    let mut buf = vec![0x7f, 0xff, 0xff, 0xff, 0, 0, 0, 5, 0];
    buf.extend_from_slice(&[0, 0, 0, 0, 0, 0, 0, 0, 0, 0]);
    let info = c2s(&buf).unwrap();
    assert_eq!(info.req_len, None);
    assert_eq!(info.resp_len, None);
}

#[test]
fn invalid_correlation_flag() {
    let buf = header(2);
    assert_eq!(invalid_flag(c2s(&buf)), Some(FlagField::HasCorrelationId));
    assert_eq!(invalid_flag(s2c(&buf)), Some(FlagField::HasCorrelationId));
}

#[test]
fn invalid_code_flag() {
    let mut buf = header(0);
    buf.extend_from_slice(&[0, 2, 0, 0, 0, 0, 0, 0]);
    assert_eq!(invalid_flag(s2c(&buf)), Some(FlagField::HasCode));
}

#[test]
fn invalid_trace_flag() {
    let mut buf = header(0);
    buf.extend_from_slice(&[0, 0, 0, 0, 0, 0, 0, 0, 7, 0]);
    assert_eq!(invalid_flag(c2s(&buf)), Some(FlagField::HasTrace));
}

#[test]
fn invalid_kv_flag() {
    let mut buf = header(0);
    buf.extend_from_slice(&[0, 0, 0, 0, 0, 0, 0, 0, 0, 9]);
    assert_eq!(invalid_flag(c2s(&buf)), Some(FlagField::HasKv));
}

#[test]
fn invalid_status() {
    let mut buf = header(0);
    buf.extend_from_slice(&[1, 0, 0, 0, 0, 0, 0, 0]);
    assert!(matches!(s2c(&buf), Err(DecodeError::InvalidStatus)));
}

#[test]
fn too_short_at_each_stage() {
    assert_eq!(too_short(c2s(&[0, 0, 0, 0, 0, 0, 0, 0, 1, 0, 0, 0])), Some(Stage::CorrelationId));
    assert_eq!(too_short(s2c(&header(0))), Some(Stage::Response));
    assert_eq!(too_short(s2c(&[0, 0, 0, 0, 0, 0, 0, 0, 0, 0])), Some(Stage::Code));
    assert_eq!(too_short(s2c(&[0, 0, 0, 0, 0, 0, 0, 0, 0, 0, 1, 0, 0])), Some(Stage::Code));
    assert_eq!(too_short(s2c(&[0, 0, 0, 0, 0, 0, 0, 0, 0, 0, 0, 0, 0, 0])), Some(Stage::Response));
    let mut buf = header(0);
    buf.extend_from_slice(&[0, 0, 0, 0, 0, 0, 0, 0]);
    assert_eq!(too_short(c2s(&buf)), Some(Stage::TraceFlag));
    buf.push(1);
    put_str(&mut buf, "t");
    assert_eq!(too_short(c2s(&buf)), Some(Stage::Trace));
    let mut buf = header(0);
    buf.extend_from_slice(&[0, 0, 0, 0, 0, 0, 0, 0, 0]);
    assert_eq!(too_short(c2s(&buf)), Some(Stage::KvFlag));
    let mut buf = header(0);
    buf.extend_from_slice(&[0, 0, 0, 0, 0, 3, b'a']);
    assert_eq!(too_short(c2s(&buf)), Some(Stage::Request));
}

#[test]
fn invalid_utf8_is_replaced() {
    let mut buf = header(0);
    buf.extend_from_slice(&[0, 2, b'o', 0xff, 0, 0, 0, 0, 0, 0, 0, 0]);
    let info = c2s(&buf).unwrap();
    assert_eq!(info.req.req_type, "o\u{fffd}");
}

#[test]
fn proto_head_and_tls() {
    let mut buf = header(0);
    buf.extend_from_slice(&[0, 0, 0, 0, 0, 0, 0, 0, 0, 0]);
    let info = c2s(&buf).unwrap();
    let head = info.app_proto_head().unwrap();
    assert_eq!(head.proto, L7Protocol::Custom);
    assert_eq!(head.msg_type, LogMessageType::Other);
    assert_eq!(head.rrt, 0);
    assert!(!info.is_tls());
    let other = L7ProtocolInfo::Other(L7Protocol::Unknown);
    assert!(matches!(other, L7ProtocolInfo::Other(_)));
}
