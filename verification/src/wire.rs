//! Tagged-union wire messages and their binary encoding.
//!
//! A message is encoded as a 4-byte little-endian variant tag followed by the
//! variant's fields in order: nested enums as their own 4-byte tags, byte
//! strings as an 8-byte little-endian length followed by the bytes, and
//! booleans as a single `0`/`1` byte.  Both ends of the channel must agree on
//! this encoding exactly; the decoder rejects anything else, including
//! trailing bytes.

use vstd::bytes::*;
use vstd::prelude::*;

use crate::status::FileAvailability;
use crate::status::FileStatusData;
use crate::status::SyncStatus;

verus! {

/// A request to the daemon.  Paths travel as UTF-8 bytes.
#[derive(Debug, Clone, PartialEq, Eq)]
pub enum IpcRequest {
    GetFileStatus { path: Vec<u8> },
    Ping,
    SetOnlineOnly { path: Vec<u8> },
    SetLocalOnline { path: Vec<u8> },
    GetFileAvailability { path: Vec<u8> },
}

/// A reply from the daemon.
#[derive(Debug, Clone, PartialEq, Eq)]
pub enum IpcResponse {
    FileStatus(SyncStatus),
    ExtendedStatus(FileStatusData),
    Pong,
    Availability(FileAvailability),
    Success,
    Error { message: Vec<u8> },
}

/// Mathematical model of a request: the same variants over `Seq<u8>`.
pub enum ReqView {
    GetFileStatus { path: Seq<u8> },
    Ping,
    SetOnlineOnly { path: Seq<u8> },
    SetLocalOnline { path: Seq<u8> },
    GetFileAvailability { path: Seq<u8> },
}

/// Mathematical model of a response.
pub enum RespView {
    FileStatus(SyncStatus),
    ExtendedStatus(FileStatusData),
    Pong,
    Availability(FileAvailability),
    Success,
    Error { message: Seq<u8> },
}

impl View for IpcRequest {
    type V = ReqView;

    open spec fn view(&self) -> ReqView {
        match self {
            IpcRequest::GetFileStatus { path } => ReqView::GetFileStatus { path: path@ },
            IpcRequest::Ping => ReqView::Ping,
            IpcRequest::SetOnlineOnly { path } => ReqView::SetOnlineOnly { path: path@ },
            IpcRequest::SetLocalOnline { path } => ReqView::SetLocalOnline { path: path@ },
            IpcRequest::GetFileAvailability { path } => ReqView::GetFileAvailability {
                path: path@,
            },
        }
    }
}

impl View for IpcResponse {
    type V = RespView;

    open spec fn view(&self) -> RespView {
        match self {
            IpcResponse::FileStatus(s) => RespView::FileStatus(*s),
            IpcResponse::ExtendedStatus(d) => RespView::ExtendedStatus(*d),
            IpcResponse::Pong => RespView::Pong,
            IpcResponse::Availability(a) => RespView::Availability(*a),
            IpcResponse::Success => RespView::Success,
            IpcResponse::Error { message } => RespView::Error { message: message@ },
        }
    }
}

/// Wire tag of each request variant.
pub open spec fn req_tag(m: ReqView) -> u32 {
    match m {
        ReqView::GetFileStatus { .. } => 0,
        ReqView::Ping => 1,
        ReqView::SetOnlineOnly { .. } => 2,
        ReqView::SetLocalOnline { .. } => 3,
        ReqView::GetFileAvailability { .. } => 4,
    }
}

/// Wire tag of each response variant.
pub open spec fn resp_tag(m: RespView) -> u32 {
    match m {
        RespView::FileStatus(..) => 0,
        RespView::ExtendedStatus(..) => 1,
        RespView::Pong => 2,
        RespView::Availability(..) => 3,
        RespView::Success => 4,
        RespView::Error { .. } => 5,
    }
}

/// Wire tag of a sync status.
pub open spec fn status_tag(s: SyncStatus) -> u32 {
    match s {
        SyncStatus::Synced => 0,
        SyncStatus::CloudOnly => 1,
        SyncStatus::LocalOnly => 2,
        SyncStatus::Error => 3,
        SyncStatus::Unknown => 4,
    }
}

/// Inverse of [`status_tag`].
pub open spec fn status_from_tag(t: u32) -> Option<SyncStatus> {
    if t == 0 {
        Some(SyncStatus::Synced)
    } else if t == 1 {
        Some(SyncStatus::CloudOnly)
    } else if t == 2 {
        Some(SyncStatus::LocalOnly)
    } else if t == 3 {
        Some(SyncStatus::Error)
    } else if t == 4 {
        Some(SyncStatus::Unknown)
    } else {
        None
    }
}

/// Wire tag of an availability.
pub open spec fn avail_tag(a: FileAvailability) -> u32 {
    match a {
        FileAvailability::LocalOnline => 0,
        FileAvailability::OnlineOnly => 1,
        FileAvailability::NotTracked => 2,
    }
}

/// Inverse of [`avail_tag`].
pub open spec fn avail_from_tag(t: u32) -> Option<FileAvailability> {
    if t == 0 {
        Some(FileAvailability::LocalOnline)
    } else if t == 1 {
        Some(FileAvailability::OnlineOnly)
    } else if t == 2 {
        Some(FileAvailability::NotTracked)
    } else {
        None
    }
}

/// Wire byte of a boolean.
pub open spec fn bool_byte(b: bool) -> u8 {
    if b {
        1
    } else {
        0
    }
}

/// Inverse of [`bool_byte`]: any other byte is rejected.
pub open spec fn bool_from_byte(b: u8) -> Option<bool> {
    if b == 0 {
        Some(false)
    } else if b == 1 {
        Some(true)
    } else {
        None
    }
}

/// A byte-string field: 8-byte little-endian length, then the bytes.
pub open spec fn spec_encode_bytes_field(p: Seq<u8>) -> Seq<u8> {
    spec_u64_to_le_bytes(p.len() as u64) + p
}

/// The whole encoding of a request.
pub open spec fn spec_encode_req(m: ReqView) -> Seq<u8> {
    spec_u32_to_le_bytes(req_tag(m)) + match m {
        ReqView::GetFileStatus { path } => spec_encode_bytes_field(path),
        ReqView::Ping => Seq::<u8>::empty(),
        ReqView::SetOnlineOnly { path } => spec_encode_bytes_field(path),
        ReqView::SetLocalOnline { path } => spec_encode_bytes_field(path),
        ReqView::GetFileAvailability { path } => spec_encode_bytes_field(path),
    }
}

/// The whole encoding of a response.
pub open spec fn spec_encode_resp(m: RespView) -> Seq<u8> {
    spec_u32_to_le_bytes(resp_tag(m)) + match m {
        RespView::FileStatus(s) => spec_u32_to_le_bytes(status_tag(s)),
        RespView::ExtendedStatus(d) => spec_u32_to_le_bytes(status_tag(d.status))
            + spec_u32_to_le_bytes(avail_tag(d.availability)) + seq![bool_byte(d.is_shared)],
        RespView::Pong => Seq::<u8>::empty(),
        RespView::Availability(a) => spec_u32_to_le_bytes(avail_tag(a)),
        RespView::Success => Seq::<u8>::empty(),
        RespView::Error { message } => spec_encode_bytes_field(message),
    }
}

/// A request is encodable when its path's length fits the 8-byte length field.
pub open spec fn req_wf(m: ReqView) -> bool {
    match m {
        ReqView::GetFileStatus { path } => path.len() <= u64::MAX,
        ReqView::Ping => true,
        ReqView::SetOnlineOnly { path } => path.len() <= u64::MAX,
        ReqView::SetLocalOnline { path } => path.len() <= u64::MAX,
        ReqView::GetFileAvailability { path } => path.len() <= u64::MAX,
    }
}

/// A response is encodable when its message's length fits the length field.
pub open spec fn resp_wf(m: RespView) -> bool {
    match m {
        RespView::Error { message } => message.len() <= u64::MAX,
        _ => true,
    }
}

/// Appends the encoding of a byte-string field to `out`.
fn push_bytes_field(out: &mut Vec<u8>, p: &Vec<u8>)
    ensures
        final(out)@ == old(out)@ + spec_encode_bytes_field(p@),
{
    let mut len_bytes = u64_to_le_bytes(p.len() as u64);
    out.append(&mut len_bytes);
    out.extend_from_slice(p.as_slice());
    assert(out@ =~= old(out)@ + spec_encode_bytes_field(p@));
}

/// Encodes a request exactly as [`spec_encode_req`] states.
pub fn encode_request(m: &IpcRequest) -> (r: Vec<u8>)
    ensures
        r@ == spec_encode_req(m@),
{
    let tag: u32 = match m {
        IpcRequest::GetFileStatus { .. } => 0,
        IpcRequest::Ping => 1,
        IpcRequest::SetOnlineOnly { .. } => 2,
        IpcRequest::SetLocalOnline { .. } => 3,
        IpcRequest::GetFileAvailability { .. } => 4,
    };
    let mut out = u32_to_le_bytes(tag);
    match m {
        IpcRequest::GetFileStatus { path } => push_bytes_field(&mut out, path),
        IpcRequest::Ping => (),
        IpcRequest::SetOnlineOnly { path } => push_bytes_field(&mut out, path),
        IpcRequest::SetLocalOnline { path } => push_bytes_field(&mut out, path),
        IpcRequest::GetFileAvailability { path } => push_bytes_field(&mut out, path),
    }
    assert(out@ =~= spec_encode_req(m@));
    out
}

/// Encodes a response exactly as [`spec_encode_resp`] states.
pub fn encode_response(m: &IpcResponse) -> (r: Vec<u8>)
    ensures
        r@ == spec_encode_resp(m@),
{
    let tag: u32 = match m {
        IpcResponse::FileStatus(..) => 0,
        IpcResponse::ExtendedStatus(..) => 1,
        IpcResponse::Pong => 2,
        IpcResponse::Availability(..) => 3,
        IpcResponse::Success => 4,
        IpcResponse::Error { .. } => 5,
    };
    let mut out = u32_to_le_bytes(tag);
    match m {
        IpcResponse::FileStatus(s) => {
            let mut b = u32_to_le_bytes(status_tag_of(*s));
            out.append(&mut b);
        },
        IpcResponse::ExtendedStatus(d) => {
            let mut b = u32_to_le_bytes(status_tag_of(d.status));
            out.append(&mut b);
            let mut b = u32_to_le_bytes(avail_tag_of(d.availability));
            out.append(&mut b);
            out.push(if d.is_shared { 1 } else { 0 });
        },
        IpcResponse::Pong => (),
        IpcResponse::Availability(a) => {
            let mut b = u32_to_le_bytes(avail_tag_of(*a));
            out.append(&mut b);
        },
        IpcResponse::Success => (),
        IpcResponse::Error { message } => push_bytes_field(&mut out, message),
    }
    assert(out@ =~= spec_encode_resp(m@));
    out
}

/// Computes [`status_tag`] in executable code.
pub fn status_tag_of(s: SyncStatus) -> (t: u32)
    ensures
        t == status_tag(s),
{
    match s {
        SyncStatus::Synced => 0,
        SyncStatus::CloudOnly => 1,
        SyncStatus::LocalOnly => 2,
        SyncStatus::Error => 3,
        SyncStatus::Unknown => 4,
    }
}

/// Computes [`avail_tag`] in executable code.
pub fn avail_tag_of(a: FileAvailability) -> (t: u32)
    ensures
        t == avail_tag(a),
{
    match a {
        FileAvailability::LocalOnline => 0,
        FileAvailability::OnlineOnly => 1,
        FileAvailability::NotTracked => 2,
    }
}

/// Parses a byte-string field; the field must fill `b` exactly.
pub open spec fn spec_decode_bytes_field(b: Seq<u8>) -> Option<Seq<u8>> {
    if b.len() < 8 {
        None
    } else {
        let n = spec_u64_from_le_bytes(b.subrange(0, 8));
        if b.len() - 8 == n {
            Some(b.skip(8))
        } else {
            None
        }
    }
}

/// Parses a whole request; `None` on any deviation from the encoding.
pub open spec fn spec_decode_req(b: Seq<u8>) -> Option<ReqView> {
    if b.len() < 4 {
        None
    } else {
        let tag = spec_u32_from_le_bytes(b.subrange(0, 4));
        let rest = b.skip(4);
        if tag == 0 {
            match spec_decode_bytes_field(rest) {
                Some(p) => Some(ReqView::GetFileStatus { path: p }),
                None => None,
            }
        } else if tag == 1 {
            if rest.len() == 0 {
                Some(ReqView::Ping)
            } else {
                None
            }
        } else if tag == 2 {
            match spec_decode_bytes_field(rest) {
                Some(p) => Some(ReqView::SetOnlineOnly { path: p }),
                None => None,
            }
        } else if tag == 3 {
            match spec_decode_bytes_field(rest) {
                Some(p) => Some(ReqView::SetLocalOnline { path: p }),
                None => None,
            }
        } else if tag == 4 {
            match spec_decode_bytes_field(rest) {
                Some(p) => Some(ReqView::GetFileAvailability { path: p }),
                None => None,
            }
        } else {
            None
        }
    }
}

/// Parses a whole response; `None` on any deviation from the encoding.
pub open spec fn spec_decode_resp(b: Seq<u8>) -> Option<RespView> {
    if b.len() < 4 {
        None
    } else {
        let tag = spec_u32_from_le_bytes(b.subrange(0, 4));
        let rest = b.skip(4);
        if tag == 0 {
            if rest.len() == 4 {
                match status_from_tag(spec_u32_from_le_bytes(rest)) {
                    Some(s) => Some(RespView::FileStatus(s)),
                    None => None,
                }
            } else {
                None
            }
        } else if tag == 1 {
            if rest.len() == 9 {
                let st = status_from_tag(spec_u32_from_le_bytes(rest.subrange(0, 4)));
                let av = avail_from_tag(spec_u32_from_le_bytes(rest.subrange(4, 8)));
                let sh = bool_from_byte(rest[8]);
                match (st, av, sh) {
                    (Some(status), Some(availability), Some(is_shared)) => Some(
                        RespView::ExtendedStatus(
                            FileStatusData { status, availability, is_shared },
                        ),
                    ),
                    _ => None,
                }
            } else {
                None
            }
        } else if tag == 2 {
            if rest.len() == 0 {
                Some(RespView::Pong)
            } else {
                None
            }
        } else if tag == 3 {
            if rest.len() == 4 {
                match avail_from_tag(spec_u32_from_le_bytes(rest)) {
                    Some(a) => Some(RespView::Availability(a)),
                    None => None,
                }
            } else {
                None
            }
        } else if tag == 4 {
            if rest.len() == 0 {
                Some(RespView::Success)
            } else {
                None
            }
        } else if tag == 5 {
            match spec_decode_bytes_field(rest) {
                Some(p) => Some(RespView::Error { message: p }),
                None => None,
            }
        } else {
            None
        }
    }
}

/// Computes [`status_from_tag`] in executable code.
pub fn status_of_tag(t: u32) -> (r: Option<SyncStatus>)
    ensures
        r == status_from_tag(t),
{
    if t == 0 {
        Some(SyncStatus::Synced)
    } else if t == 1 {
        Some(SyncStatus::CloudOnly)
    } else if t == 2 {
        Some(SyncStatus::LocalOnly)
    } else if t == 3 {
        Some(SyncStatus::Error)
    } else if t == 4 {
        Some(SyncStatus::Unknown)
    } else {
        None
    }
}

/// Computes [`avail_from_tag`] in executable code.
pub fn avail_of_tag(t: u32) -> (r: Option<FileAvailability>)
    ensures
        r == avail_from_tag(t),
{
    if t == 0 {
        Some(FileAvailability::LocalOnline)
    } else if t == 1 {
        Some(FileAvailability::OnlineOnly)
    } else if t == 2 {
        Some(FileAvailability::NotTracked)
    } else {
        None
    }
}

/// Parses a byte-string field exactly as [`spec_decode_bytes_field`] states.
fn decode_bytes_field(b: &[u8]) -> (r: Option<Vec<u8>>)
    ensures
        match r {
            Some(p) => spec_decode_bytes_field(b@) == Some(p@),
            None => spec_decode_bytes_field(b@) is None,
        },
{
    let n = b.len();
    if n < 8 {
        return None;
    }
    let len64 = u64_from_le_bytes(vstd::slice::slice_subrange(b, 0, 8));
    if (n - 8) as u64 == len64 {
        let body = vstd::slice::slice_to_vec(vstd::slice::slice_subrange(b, 8, n));
        assert(body@ =~= b@.skip(8));
        Some(body)
    } else {
        None
    }
}

/// Decodes a request exactly as [`spec_decode_req`] states.
pub fn decode_request(b: &[u8]) -> (r: Option<IpcRequest>)
    ensures
        match r {
            Some(m) => spec_decode_req(b@) == Some(m@),
            None => spec_decode_req(b@) is None,
        },
{
    let n = b.len();
    if n < 4 {
        return None;
    }
    let tag = u32_from_le_bytes(vstd::slice::slice_subrange(b, 0, 4));
    let rest = vstd::slice::slice_subrange(b, 4, n);
    assert(rest@ =~= b@.skip(4));
    if tag == 0 {
        match decode_bytes_field(rest) {
            Some(path) => Some(IpcRequest::GetFileStatus { path }),
            None => None,
        }
    } else if tag == 1 {
        if rest.len() == 0 {
            Some(IpcRequest::Ping)
        } else {
            None
        }
    } else if tag == 2 {
        match decode_bytes_field(rest) {
            Some(path) => Some(IpcRequest::SetOnlineOnly { path }),
            None => None,
        }
    } else if tag == 3 {
        match decode_bytes_field(rest) {
            Some(path) => Some(IpcRequest::SetLocalOnline { path }),
            None => None,
        }
    } else if tag == 4 {
        match decode_bytes_field(rest) {
            Some(path) => Some(IpcRequest::GetFileAvailability { path }),
            None => None,
        }
    } else {
        None
    }
}

/// Decodes a response exactly as [`spec_decode_resp`] states.
pub fn decode_response(b: &[u8]) -> (r: Option<IpcResponse>)
    ensures
        match r {
            Some(m) => spec_decode_resp(b@) == Some(m@),
            None => spec_decode_resp(b@) is None,
        },
{
    let n = b.len();
    if n < 4 {
        return None;
    }
    let tag = u32_from_le_bytes(vstd::slice::slice_subrange(b, 0, 4));
    let rest = vstd::slice::slice_subrange(b, 4, n);
    assert(rest@ =~= b@.skip(4));
    if tag == 0 {
        if rest.len() == 4 {
            match status_of_tag(u32_from_le_bytes(rest)) {
                Some(s) => Some(IpcResponse::FileStatus(s)),
                None => None,
            }
        } else {
            None
        }
    } else if tag == 1 {
        if rest.len() == 9 {
            let st_bytes = vstd::slice::slice_subrange(rest, 0, 4);
            let av_bytes = vstd::slice::slice_subrange(rest, 4, 8);
            let st = status_of_tag(u32_from_le_bytes(st_bytes));
            let av = avail_of_tag(u32_from_le_bytes(av_bytes));
            let sh_byte = *vstd::slice::slice_index_get(rest, 8);
            let sh = if sh_byte == 0 {
                Some(false)
            } else if sh_byte == 1 {
                Some(true)
            } else {
                None
            };
            match (st, av, sh) {
                (Some(status), Some(availability), Some(is_shared)) => Some(
                    IpcResponse::ExtendedStatus(
                        FileStatusData { status, availability, is_shared },
                    ),
                ),
                _ => None,
            }
        } else {
            None
        }
    } else if tag == 2 {
        if rest.len() == 0 {
            Some(IpcResponse::Pong)
        } else {
            None
        }
    } else if tag == 3 {
        if rest.len() == 4 {
            match avail_of_tag(u32_from_le_bytes(rest)) {
                Some(a) => Some(IpcResponse::Availability(a)),
                None => None,
            }
        } else {
            None
        }
    } else if tag == 4 {
        if rest.len() == 0 {
            Some(IpcResponse::Success)
        } else {
            None
        }
    } else if tag == 5 {
        match decode_bytes_field(rest) {
            Some(message) => Some(IpcResponse::Error { message }),
            None => None,
        }
    } else {
        None
    }
}

/// A byte-string field decodes back to the bytes it was built from.
proof fn lemma_bytes_field_round_trip(p: Seq<u8>)
    requires
        p.len() <= u64::MAX,
    ensures
        spec_decode_bytes_field(spec_encode_bytes_field(p)) == Some(p),
{
    lemma_auto_spec_u64_to_from_le_bytes();
    let f = spec_encode_bytes_field(p);
    assert(f.subrange(0, 8) =~= spec_u64_to_le_bytes(p.len() as u64));
    assert(f.skip(8) =~= p);
}

/// A parsed byte-string field came from exactly one encoding.
proof fn lemma_bytes_field_decode_sound(rest: Seq<u8>, p: Seq<u8>)
    requires
        spec_decode_bytes_field(rest) == Some(p),
    ensures
        rest == spec_encode_bytes_field(p),
        p.len() <= u64::MAX,
{
    lemma_auto_spec_u64_to_from_le_bytes();
    let lenb = rest.subrange(0, 8);
    let n = spec_u64_from_le_bytes(lenb);
    assert(spec_u64_to_le_bytes(spec_u64_from_le_bytes(lenb)) == lenb);
    assert(p == rest.skip(8));
    assert(p.len() == n);
    assert(rest =~= spec_encode_bytes_field(p));
}

/// Soundness of the request decoder: it accepts only the canonical encoding
/// of the request it returns.  Together with [`lemma_req_round_trip`] the
/// codec is a bijection between requests and their encodings.
pub proof fn lemma_req_decode_sound(b: Seq<u8>, m: ReqView)
    requires
        spec_decode_req(b) == Some(m),
    ensures
        b == spec_encode_req(m),
        req_wf(m),
{
    lemma_auto_spec_u32_to_from_le_bytes();
    let tagb = b.subrange(0, 4);
    let tag = spec_u32_from_le_bytes(tagb);
    let rest = b.skip(4);
    assert(spec_u32_to_le_bytes(spec_u32_from_le_bytes(tagb)) == tagb);
    if tag == 1 {
        assert(b =~= spec_encode_req(m));
    } else {
        let p = rest.skip(8);
        lemma_bytes_field_decode_sound(rest, p);
        assert(b =~= spec_encode_req(m));
    }
}

/// Soundness of the response decoder: it accepts only the canonical encoding
/// of the response it returns.  Together with [`lemma_resp_round_trip`] the
/// codec is a bijection between responses and their encodings.
pub proof fn lemma_resp_decode_sound(b: Seq<u8>, m: RespView)
    requires
        spec_decode_resp(b) == Some(m),
    ensures
        b == spec_encode_resp(m),
        resp_wf(m),
{
    lemma_auto_spec_u32_to_from_le_bytes();
    let tagb = b.subrange(0, 4);
    let tag = spec_u32_from_le_bytes(tagb);
    let rest = b.skip(4);
    assert(spec_u32_to_le_bytes(spec_u32_from_le_bytes(tagb)) == tagb);
    if tag == 0 || tag == 3 {
        assert(spec_u32_to_le_bytes(spec_u32_from_le_bytes(rest)) == rest);
        assert(b =~= spec_encode_resp(m));
    } else if tag == 1 {
        let stb = rest.subrange(0, 4);
        let avb = rest.subrange(4, 8);
        assert(spec_u32_to_le_bytes(spec_u32_from_le_bytes(stb)) == stb);
        assert(spec_u32_to_le_bytes(spec_u32_from_le_bytes(avb)) == avb);
        assert(rest =~= stb + avb + seq![rest[8]]);
        assert(b =~= spec_encode_resp(m));
    } else if tag == 2 || tag == 4 {
        assert(b =~= spec_encode_resp(m));
    } else {
        let p = rest.skip(8);
        lemma_bytes_field_decode_sound(rest, p);
        assert(b =~= spec_encode_resp(m));
    }
}

/// Round-trip law for requests: decoding an encoded request gives it back.
pub proof fn lemma_req_round_trip(m: ReqView)
    requires
        req_wf(m),
    ensures
        spec_decode_req(spec_encode_req(m)) == Some(m),
{
    lemma_auto_spec_u32_to_from_le_bytes();
    let b = spec_encode_req(m);
    let tagb = spec_u32_to_le_bytes(req_tag(m));
    assert(b.subrange(0, 4) =~= tagb);
    match m {
        ReqView::GetFileStatus { path } => {
            assert(b.skip(4) =~= spec_encode_bytes_field(path));
            lemma_bytes_field_round_trip(path);
        },
        ReqView::Ping => {
            assert(b.skip(4) =~= Seq::<u8>::empty());
        },
        ReqView::SetOnlineOnly { path } => {
            assert(b.skip(4) =~= spec_encode_bytes_field(path));
            lemma_bytes_field_round_trip(path);
        },
        ReqView::SetLocalOnline { path } => {
            assert(b.skip(4) =~= spec_encode_bytes_field(path));
            lemma_bytes_field_round_trip(path);
        },
        ReqView::GetFileAvailability { path } => {
            assert(b.skip(4) =~= spec_encode_bytes_field(path));
            lemma_bytes_field_round_trip(path);
        },
    }
}

/// Round-trip law for responses: decoding an encoded response gives it back.
pub proof fn lemma_resp_round_trip(m: RespView)
    requires
        resp_wf(m),
    ensures
        spec_decode_resp(spec_encode_resp(m)) == Some(m),
{
    lemma_auto_spec_u32_to_from_le_bytes();
    let b = spec_encode_resp(m);
    let tagb = spec_u32_to_le_bytes(resp_tag(m));
    assert(b.subrange(0, 4) =~= tagb);
    match m {
        RespView::FileStatus(s) => {
            assert(b.skip(4) =~= spec_u32_to_le_bytes(status_tag(s)));
        },
        RespView::ExtendedStatus(d) => {
            let body = spec_u32_to_le_bytes(status_tag(d.status)) + spec_u32_to_le_bytes(
                avail_tag(d.availability),
            ) + seq![bool_byte(d.is_shared)];
            assert(b.skip(4) =~= body);
            assert(body.subrange(0, 4) =~= spec_u32_to_le_bytes(status_tag(d.status)));
            assert(body.subrange(4, 8) =~= spec_u32_to_le_bytes(avail_tag(d.availability)));
            assert(body[8] == bool_byte(d.is_shared));
        },
        RespView::Pong => {
            assert(b.skip(4) =~= Seq::<u8>::empty());
        },
        RespView::Availability(a) => {
            assert(b.skip(4) =~= spec_u32_to_le_bytes(avail_tag(a)));
        },
        RespView::Success => {
            assert(b.skip(4) =~= Seq::<u8>::empty());
        },
        RespView::Error { message } => {
            assert(b.skip(4) =~= spec_encode_bytes_field(message));
            lemma_bytes_field_round_trip(message);
        },
    }
}

} // verus!
