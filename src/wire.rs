use vstd::prelude::*;

use crate::bytes::{be_u16, be_u32, read_u16_be, read_u32_be};
use crate::plugin::{
    empty_info, empty_request, empty_resp, empty_trace, CustomInfo, CustomInfoRequest,
    CustomInfoResp, CustomInfoTrace, CustomInfoView, DecodeError, FlagField, PacketDirection,
    RequestView, RespView, Stage, TraceView,
};
use crate::protocol::{pairs_view, KeyVal, L7ResponseStatus};
use crate::text::{lossy_string, utf8_lossy};

verus! {

/// The length-prefixed string at `off`, with the offset just past it; `None` where the
/// two-byte prefix or the bytes it counts run past the end of `b`.
pub open spec fn str_at(b: Seq<u8>, off: int) -> Option<(Seq<char>, int)> {
    if off < 0 || off + 2 > b.len() {
        None
    } else {
        let n = be_u16(b, off) as int;
        if off + 2 + n > b.len() {
            None
        } else {
            Some((utf8_lossy(b.subrange(off + 2, off + 2 + n)), off + 2 + n))
        }
    }
}

/// The optional 31-bit length held by the word at `off`: present iff its top bit is set.
pub open spec fn len_word(b: Seq<u8>, off: int) -> Option<u32> {
    let w = be_u32(b, off);
    if w & 0x8000_0000u32 != 0 {
        Some(w & 0x7fff_ffffu32)
    } else {
        None
    }
}

/// The fixed header: both lengths, the correlation id, and the offset after them.
pub open spec fn spec_header(b: Seq<u8>) -> Result<
    (Option<u32>, Option<u32>, Option<u32>, int),
    DecodeError,
> {
    if b.len() < 9 {
        Err(DecodeError::TooShort(Stage::Header))
    } else if b[8] == 0 {
        Ok((len_word(b, 0), len_word(b, 4), None, 9))
    } else if b[8] == 1 {
        if b.len() < 13 {
            Err(DecodeError::TooShort(Stage::CorrelationId))
        } else {
            Ok((len_word(b, 0), len_word(b, 4), Some(be_u32(b, 9)), 13))
        }
    } else {
        Err(DecodeError::InvalidFlag(FlagField::HasCorrelationId))
    }
}

/// The request section at `off`: type, endpoint, domain and resource, in that order.
pub open spec fn spec_request(b: Seq<u8>, off: int) -> Result<(RequestView, int), DecodeError> {
    match str_at(b, off) {
        None => Err(DecodeError::TooShort(Stage::Request)),
        Some((req_type, o1)) => match str_at(b, o1) {
            None => Err(DecodeError::TooShort(Stage::Request)),
            Some((endpoint, o2)) => match str_at(b, o2) {
                None => Err(DecodeError::TooShort(Stage::Request)),
                Some((domain, o3)) => match str_at(b, o3) {
                    None => Err(DecodeError::TooShort(Stage::Request)),
                    Some((resource, o4)) => Ok(
                        (RequestView { req_type, domain, resource, endpoint }, o4),
                    ),
                },
            },
        },
    }
}

/// The status that a status byte stands for.
pub open spec fn status_of(v: u8) -> Option<L7ResponseStatus> {
    if v == 0 {
        Some(L7ResponseStatus::Normal)
    } else if v == 2 {
        Some(L7ResponseStatus::ClientError)
    } else if v == 3 {
        Some(L7ResponseStatus::ServerError)
    } else {
        None
    }
}

/// The optional code at `off` (its flag byte first), with the offset after it.
pub open spec fn spec_code(b: Seq<u8>, off: int) -> Result<(Option<i32>, int), DecodeError> {
    if off >= b.len() {
        Err(DecodeError::TooShort(Stage::Code))
    } else if b[off] == 0 {
        Ok((None, off + 1))
    } else if b[off] == 1 {
        if off + 5 > b.len() {
            Err(DecodeError::TooShort(Stage::Code))
        } else {
            Ok((Some(be_u32(b, off + 1) as i32), off + 5))
        }
    } else {
        Err(DecodeError::InvalidFlag(FlagField::HasCode))
    }
}

/// The response section at `off`: status, optional code, then result and exception.
pub open spec fn spec_response(b: Seq<u8>, off: int) -> Result<(RespView, int), DecodeError> {
    if off >= b.len() {
        Err(DecodeError::TooShort(Stage::Response))
    } else {
        match status_of(b[off]) {
            None => Err(DecodeError::InvalidStatus),
            Some(status) => match spec_code(b, off + 1) {
                Err(e) => Err(e),
                Ok((code, o1)) => match str_at(b, o1) {
                    None => Err(DecodeError::TooShort(Stage::Response)),
                    Some((result, o2)) => match str_at(b, o2) {
                        None => Err(DecodeError::TooShort(Stage::Response)),
                        Some((exception, o3)) => Ok(
                            (RespView { status, code, exception, result }, o3),
                        ),
                    },
                },
            },
        }
    }
}

/// The trace section at `off`: a flag byte, then, if it is 1, three strings.
pub open spec fn spec_trace(b: Seq<u8>, off: int) -> Result<(TraceView, int), DecodeError> {
    if off >= b.len() {
        Err(DecodeError::TooShort(Stage::TraceFlag))
    } else if b[off] == 0 {
        Ok((empty_trace(), off + 1))
    } else if b[off] == 1 {
        match str_at(b, off + 1) {
            None => Err(DecodeError::TooShort(Stage::Trace)),
            Some((trace_id, o1)) => match str_at(b, o1) {
                None => Err(DecodeError::TooShort(Stage::Trace)),
                Some((span_id, o2)) => match str_at(b, o2) {
                    None => Err(DecodeError::TooShort(Stage::Trace)),
                    Some((parent_span_id, o3)) => Ok(
                        (
                            TraceView {
                                trace_id: Some(trace_id),
                                span_id: Some(span_id),
                                parent_span_id: Some(parent_span_id),
                            },
                            o3,
                        ),
                    ),
                },
            },
        }
    } else {
        Err(DecodeError::InvalidFlag(FlagField::HasTrace))
    }
}

/// The (key, value) pairs from `off` on, up to the first pair that cannot be read whole.
pub open spec fn kv_pairs(b: Seq<u8>, off: int) -> Seq<(Seq<char>, Seq<char>)>
    decreases b.len() - off,
{
    match str_at(b, off) {
        None => Seq::empty(),
        Some((key, o1)) => match str_at(b, o1) {
            None => Seq::empty(),
            Some((val, o2)) => seq![(key, val)] + kv_pairs(b, o2),
        },
    }
}

/// The attribute section at `off`: a flag byte, then, if it is 1, the pairs.
pub open spec fn spec_kv(b: Seq<u8>, off: int) -> Result<Seq<(Seq<char>, Seq<char>)>, DecodeError> {
    if off >= b.len() {
        Err(DecodeError::TooShort(Stage::KvFlag))
    } else if b[off] == 0 {
        Ok(Seq::empty())
    } else if b[off] == 1 {
        Ok(kv_pairs(b, off + 1))
    } else {
        Err(DecodeError::InvalidFlag(FlagField::HasKv))
    }
}

/// The direction-dependent section at `off`: the request and response of the record.
pub open spec fn spec_body(b: Seq<u8>, off: int, dir: PacketDirection) -> Result<
    (RequestView, RespView, int),
    DecodeError,
> {
    match dir {
        PacketDirection::ClientToServer => match spec_request(b, off) {
            Err(e) => Err(e),
            Ok((req, o)) => Ok((req, empty_resp(), o)),
        },
        PacketDirection::ServerToClient => match spec_response(b, off) {
            Err(e) => Err(e),
            Ok((resp, o)) => Ok((empty_request(), resp, o)),
        },
    }
}

/// The record that a payload seen in direction `dir` encodes, or why it encodes none.
pub open spec fn spec_decode(b: Seq<u8>, dir: PacketDirection) -> Result<CustomInfoView, DecodeError> {
    match spec_header(b) {
        Err(e) => Err(e),
        Ok((req_len, resp_len, request_id, o1)) => match spec_body(b, o1, dir) {
            Err(e) => Err(e),
            Ok((req, resp, o2)) => match spec_trace(b, o2) {
                Err(e) => Err(e),
                Ok((trace, o3)) => match spec_kv(b, o3) {
                    Err(e) => Err(e),
                    Ok(attributes) => Ok(
                        CustomInfoView {
                            req_len,
                            resp_len,
                            request_id,
                            req,
                            resp,
                            trace,
                            attributes,
                            ..empty_info()
                        },
                    ),
                },
            },
        },
    }
}

} // verus!

verus! {

/// The view of a decoding outcome.
pub open spec fn outcome_view(r: Result<CustomInfo, DecodeError>) -> Result<CustomInfoView, DecodeError> {
    match r {
        Ok(info) => Ok(info@),
        Err(e) => Err(e),
    }
}

/// Reads the length-prefixed string at `*off` and moves `*off` past it.
fn read_str(buf: &[u8], off: &mut usize) -> (r: Option<String>)
    requires
        *old(off) <= buf@.len(),
    ensures
        *final(off) <= buf@.len(),
        match str_at(buf@, *old(off) as int) {
            None => r is None,
            Some((s, o)) => r matches Some(t) && t@ == s && *final(off) as int == o,
        },
{
    if buf.len() - *off < 2 {
        return None;
    }
    let n = read_u16_be(buf, *off) as usize;
    let start = *off + 2;
    if buf.len() - start < n {
        return None;
    }
    let s = lossy_string(&buf[start..start + n]);
    *off = start + n;
    Some(s)
}

/// Reads one (key, value) pair; `None` marks the end of the attributes.
fn read_pair(buf: &[u8], off: &mut usize) -> (r: Option<KeyVal>)
    requires
        *old(off) <= buf@.len(),
    ensures
        *final(off) <= buf@.len(),
        match str_at(buf@, *old(off) as int) {
            None => r is None,
            Some((key, o1)) => match str_at(buf@, o1) {
                None => r is None,
                Some((val, o2)) => r matches Some(kv) && kv@ == (key, val) && *final(off) as int
                    == o2,
            },
        },
{
    let key = read_str(buf, off);
    let val = read_str(buf, off);
    match (key, val) {
        (Some(key), Some(val)) => Some(KeyVal { key, val }),
        _ => None,
    }
}

/// Reads the length word at `off`.
fn read_len_word(buf: &[u8], off: usize) -> (r: Option<u32>)
    requires
        off + 4 <= buf@.len(),
    ensures
        r == len_word(buf@, off as int),
{
    let w = read_u32_be(buf, off);
    if w & 0x8000_0000u32 != 0 {
        Some(w & 0x7fff_ffffu32)
    } else {
        None
    }
}

/// Reads the request section at `*off`.
fn read_request(buf: &[u8], off: &mut usize) -> (r: Result<CustomInfoRequest, DecodeError>)
    requires
        *old(off) <= buf@.len(),
    ensures
        *final(off) <= buf@.len(),
        match (r, spec_request(buf@, *old(off) as int)) {
            (Ok(req), Ok((v, o))) => req@ == v && *final(off) as int == o,
            (Err(e), Err(f)) => e == f,
            _ => false,
        },
{
    let req_type = match read_str(buf, off) {
        Some(s) => s,
        None => return Err(DecodeError::TooShort(Stage::Request)),
    };
    let endpoint = match read_str(buf, off) {
        Some(s) => s,
        None => return Err(DecodeError::TooShort(Stage::Request)),
    };
    let domain = match read_str(buf, off) {
        Some(s) => s,
        None => return Err(DecodeError::TooShort(Stage::Request)),
    };
    let resource = match read_str(buf, off) {
        Some(s) => s,
        None => return Err(DecodeError::TooShort(Stage::Request)),
    };
    Ok(CustomInfoRequest { req_type, domain, resource, endpoint })
}

/// Reads the response section at `*off`.
fn read_response(buf: &[u8], off: &mut usize) -> (r: Result<CustomInfoResp, DecodeError>)
    requires
        *old(off) <= buf@.len(),
    ensures
        *final(off) <= buf@.len(),
        match (r, spec_response(buf@, *old(off) as int)) {
            (Ok(resp), Ok((v, o))) => resp@ == v && *final(off) as int == o,
            (Err(e), Err(f)) => e == f,
            _ => false,
        },
{
    if *off >= buf.len() {
        return Err(DecodeError::TooShort(Stage::Response));
    }
    let status = match buf[*off] {
        0 => L7ResponseStatus::Normal,
        2 => L7ResponseStatus::ClientError,
        3 => L7ResponseStatus::ServerError,
        _ => return Err(DecodeError::InvalidStatus),
    };
    *off = *off + 1;
    if *off >= buf.len() {
        return Err(DecodeError::TooShort(Stage::Code));
    }
    let code = match buf[*off] {
        0 => {
            *off = *off + 1;
            None
        },
        1 => {
            *off = *off + 1;
            if buf.len() - *off < 4 {
                return Err(DecodeError::TooShort(Stage::Code));
            }
            let c = read_u32_be(buf, *off) as i32;
            *off = *off + 4;
            Some(c)
        },
        _ => return Err(DecodeError::InvalidFlag(FlagField::HasCode)),
    };
    let result = match read_str(buf, off) {
        Some(s) => s,
        None => return Err(DecodeError::TooShort(Stage::Response)),
    };
    let exception = match read_str(buf, off) {
        Some(s) => s,
        None => return Err(DecodeError::TooShort(Stage::Response)),
    };
    Ok(CustomInfoResp { status, code, exception, result })
}

/// Reads the trace section, flag byte first, at `*off`.
fn read_trace(buf: &[u8], off: &mut usize) -> (r: Result<CustomInfoTrace, DecodeError>)
    requires
        *old(off) <= buf@.len(),
    ensures
        *final(off) <= buf@.len(),
        match (r, spec_trace(buf@, *old(off) as int)) {
            (Ok(t), Ok((v, o))) => t@ == v && *final(off) as int == o,
            (Err(e), Err(f)) => e == f,
            _ => false,
        },
{
    if *off >= buf.len() {
        return Err(DecodeError::TooShort(Stage::TraceFlag));
    }
    let has_trace = buf[*off];
    *off = *off + 1;
    if has_trace == 0 {
        return Ok(CustomInfoTrace::default());
    }
    if has_trace != 1 {
        return Err(DecodeError::InvalidFlag(FlagField::HasTrace));
    }
    let trace_id = match read_str(buf, off) {
        Some(s) => s,
        None => return Err(DecodeError::TooShort(Stage::Trace)),
    };
    let span_id = match read_str(buf, off) {
        Some(s) => s,
        None => return Err(DecodeError::TooShort(Stage::Trace)),
    };
    let parent_span_id = match read_str(buf, off) {
        Some(s) => s,
        None => return Err(DecodeError::TooShort(Stage::Trace)),
    };
    Ok(
        CustomInfoTrace {
            trace_id: Some(trace_id),
            span_id: Some(span_id),
            parent_span_id: Some(parent_span_id),
        },
    )
}

/// Reads the attribute section, flag byte first, at `off`.
fn read_kv(buf: &[u8], off: usize) -> (r: Result<Vec<KeyVal>, DecodeError>)
    requires
        off <= buf@.len(),
    ensures
        match (r, spec_kv(buf@, off as int)) {
            (Ok(v), Ok(s)) => pairs_view(v@) == s,
            (Err(e), Err(f)) => e == f,
            _ => false,
        },
{
    if off >= buf.len() {
        return Err(DecodeError::TooShort(Stage::KvFlag));
    }
    let has_kv = buf[off];
    let mut attributes: Vec<KeyVal> = Vec::new();
    if has_kv == 0 {
        assert(pairs_view(attributes@) =~= Seq::empty());
        return Ok(attributes);
    }
    if has_kv != 1 {
        return Err(DecodeError::InvalidFlag(FlagField::HasKv));
    }
    let ghost start: int = off + 1;
    let mut cur: usize = off + 1;
    assert(pairs_view(attributes@) + kv_pairs(buf@, start) =~= kv_pairs(buf@, start));
    loop
        invariant_except_break
            cur <= buf@.len(),
            pairs_view(attributes@) + kv_pairs(buf@, cur as int) == kv_pairs(buf@, start),
        ensures
            pairs_view(attributes@) == kv_pairs(buf@, start),
        decreases buf@.len() - cur,
    {
        let ghost before = cur;
        match read_pair(buf, &mut cur) {
            Some(kv) => {
                let ghost prev = attributes@;
                attributes.push(kv);
                assert(pairs_view(attributes@) =~= pairs_view(prev).push(kv@));
                assert(kv_pairs(buf@, before as int) =~= seq![kv@] + kv_pairs(buf@, cur as int));
                assert(pairs_view(attributes@) + kv_pairs(buf@, cur as int) =~= pairs_view(prev)
                    + kv_pairs(buf@, before as int));
            },
            None => {
                assert(kv_pairs(buf@, before as int) =~= Seq::empty());
                assert(pairs_view(attributes@) =~= pairs_view(attributes@) + kv_pairs(
                    buf@,
                    before as int,
                ));
                break ;
            },
        }
    }
    Ok(attributes)
}

impl CustomInfo {
    /// Decodes one payload seen in direction `dir`.
    pub fn decode(buf: &[u8], dir: PacketDirection) -> (r: Result<CustomInfo, DecodeError>)
        ensures
            outcome_view(r) == spec_decode(buf@, dir),
    {
        if buf.len() < 9 {
            return Err(DecodeError::TooShort(Stage::Header));
        }
        let req_len = read_len_word(buf, 0);
        let resp_len = read_len_word(buf, 4);
        let mut off: usize = 8;
        let request_id = match buf[off] {
            0 => {
                off = off + 1;
                None
            },
            1 => {
                off = off + 1;
                if buf.len() - off < 4 {
                    return Err(DecodeError::TooShort(Stage::CorrelationId));
                }
                let id = read_u32_be(buf, off);
                off = off + 4;
                Some(id)
            },
            _ => return Err(DecodeError::InvalidFlag(FlagField::HasCorrelationId)),
        };
        let mut info = CustomInfo::default();
        info.req_len = req_len;
        info.resp_len = resp_len;
        info.request_id = request_id;
        match dir {
            PacketDirection::ClientToServer => {
                info.req = read_request(buf, &mut off)?;
            },
            PacketDirection::ServerToClient => {
                info.resp = read_response(buf, &mut off)?;
            },
        }
        info.trace = read_trace(buf, &mut off)?;
        info.attributes = read_kv(buf, off)?;
        Ok(info)
    }
}

impl<'a> TryFrom<(&'a [u8], PacketDirection)> for CustomInfo {
    type Error = DecodeError;

    fn try_from(f: (&'a [u8], PacketDirection)) -> (r: Result<CustomInfo, DecodeError>)
        ensures
            outcome_view(r) == spec_decode(f.0@, f.1),
    {
        CustomInfo::decode(f.0, f.1)
    }
}

impl<'a> vstd::std_specs::convert::TryFromSpecImpl<(&'a [u8], PacketDirection)> for CustomInfo {
    open spec fn obeys_try_from_spec() -> bool {
        false
    }

    closed spec fn try_from_spec(f: (&'a [u8], PacketDirection)) -> Result<CustomInfo, DecodeError> {
        arbitrary()
    }
}

} // verus!
