use vstd::prelude::*;
use vstd::utf8::*;
use vstd::string::StringSliceAdditionalSpecFns;
use crate::error::AppError;
use crate::text::{concat, string_from};
use crate::varint::{VarIntDecode, decode_varint, varint_decode, varint_decode_from, varint_encode, write_varint_to_buf};

verus! {

/// The protocol version that the status handshake announces.
pub const HANDSHAKE_PROTOCOL_VERSION: i32 = 340;

/// The state that the handshake asks for next: status.
pub const HANDSHAKE_NEXT_STATE_STATUS: i32 = 1;

/// `String::from_utf8`: the text whose UTF-8 encoding is `bytes`, or, where
/// `bytes` is no valid UTF-8, the text of the error (which is not stated here).
#[verifier::external_body]
pub(crate) fn utf8_decode(bytes: Vec<u8>) -> (r: Result<String, String>)
    ensures
        r.is_ok() <==> valid_utf8(bytes@),
        r matches Ok(s) ==> s@ == decode_utf8(bytes@),
{
    String::from_utf8(bytes).map_err(|e| e.to_string())
}

/// Appends a string to `buf` as the protocol writes it: its length in bytes as a
/// variable-length integer, then its UTF-8 bytes.
pub fn write_string_to_buf(buf: &mut Vec<u8>, s: &str)
    ensures
        final(buf)@ == old(buf)@ + varint_encode(s.spec_bytes().len() as u32) + s.spec_bytes(),
{
    let bytes = s.as_bytes();
    let n: usize = bytes.len();
    let v: i32 = #[verifier::truncate] (n as i32);
    assert((#[verifier::truncate] (v as u32)) == (#[verifier::truncate] (n as u32))) by (bit_vector)
        requires v == #[verifier::truncate] (n as i32);
    write_varint_to_buf(buf, v);
    let ghost mid = buf@;
    buf.extend_from_slice(bytes);
    assert(buf@ =~= mid + s.spec_bytes());
}

/// The handshake packet's payload: packet id 0, the protocol version, the server's
/// address, its port in big-endian order, and the next state (status).
pub open spec fn handshake_payload(server_ip: Seq<u8>, server_port: u16) -> Seq<u8> {
    seq![0x00u8] + varint_encode(340) + varint_encode(server_ip.len() as u32) + server_ip
        + seq![(server_port / 256) as u8, (server_port % 256) as u8] + varint_encode(1)
}

/// A packet on the wire: the payload's length as a variable-length integer, then
/// the payload.
pub open spec fn framed(payload: Seq<u8>) -> Seq<u8> {
    varint_encode(payload.len() as u32) + payload
}

/// The payload of the handshake that opens a status query of `server_ip:server_port`.
pub fn build_handshake(server_ip: &str, server_port: u16) -> (r: Vec<u8>)
    ensures
        r@ == handshake_payload(server_ip.spec_bytes(), server_port),
{
    let mut handshake: Vec<u8> = Vec::new();
    handshake.push(0x00);
    write_varint_to_buf(&mut handshake, HANDSHAKE_PROTOCOL_VERSION);
    write_string_to_buf(&mut handshake, server_ip);
    handshake.push((server_port / 256) as u8);
    handshake.push((server_port % 256) as u8);
    write_varint_to_buf(&mut handshake, HANDSHAKE_NEXT_STATE_STATUS);
    assert(handshake@ =~= handshake_payload(server_ip.spec_bytes(), server_port));
    handshake
}

/// `data` framed as a packet: its length, then the data.
pub fn frame_packet(data: &[u8]) -> (r: Vec<u8>)
    ensures
        r@ == framed(data@),
{
    let mut out: Vec<u8> = Vec::new();
    let n: usize = data.len();
    let v: i32 = #[verifier::truncate] (n as i32);
    assert((#[verifier::truncate] (v as u32)) == (#[verifier::truncate] (n as u32))) by (bit_vector)
        requires v == #[verifier::truncate] (n as i32);
    write_varint_to_buf(&mut out, v);
    let ghost mid = out@;
    out.extend_from_slice(data);
    assert(out@ =~= mid + data@);
    out
}

/// The status request: a packet made of the packet id 0 alone.
pub fn status_request_packet() -> (r: Vec<u8>)
    ensures
        r@ == framed(seq![0x00u8]),
{
    let payload: Vec<u8> = vec![0x00];
    assert(payload@ =~= seq![0x00u8]);
    frame_packet(payload.as_slice())
}

/// How far a status response has come, as a function of the bytes received.
pub enum StatusOutcome {
    /// The response is not complete yet.
    NeedMore,
    /// One of the three leading integers is longer than five bytes.
    TooBig,
    /// The packet id is not 0.
    BadPacketId,
    /// The announced length of the JSON text is negative.
    NegativeLength,
    /// The bytes of the JSON text.
    Json(Seq<u8>),
}

/// The status response: its length, its packet id (which must be 0), the length of
/// the JSON text, then that many bytes of text.
pub open spec fn status_outcome(b: Seq<u8>) -> StatusOutcome {
    match varint_decode(b) {
        VarIntDecode::Incomplete => StatusOutcome::NeedMore,
        VarIntDecode::TooBig => StatusOutcome::TooBig,
        VarIntDecode::Value { value: _, len: n1 } => {
            let b2 = b.skip(n1 as int);
            match varint_decode(b2) {
                VarIntDecode::Incomplete => StatusOutcome::NeedMore,
                VarIntDecode::TooBig => StatusOutcome::TooBig,
                VarIntDecode::Value { value: id, len: n2 } => {
                    if id != 0 {
                        StatusOutcome::BadPacketId
                    } else {
                        let b3 = b2.skip(n2 as int);
                        match varint_decode(b3) {
                            VarIntDecode::Incomplete => StatusOutcome::NeedMore,
                            VarIntDecode::TooBig => StatusOutcome::TooBig,
                            VarIntDecode::Value { value: json_len, len: n3 } => {
                                let b4 = b3.skip(n3 as int);
                                if json_len < 0 {
                                    StatusOutcome::NegativeLength
                                } else if b4.len() < json_len {
                                    StatusOutcome::NeedMore
                                } else {
                                    StatusOutcome::Json(b4.take(json_len as int))
                                }
                            },
                        }
                    }
                },
            }
        },
    }
}

/// What a status query has read so far.
#[derive(Debug)]
pub enum StatusRead {
    /// More bytes are needed.
    NeedMore,
    /// The server's JSON status text.
    Json(String),
    /// The response is malformed.
    Failed(AppError),
}

proof fn lemma_varint_len_bound(b: Seq<u8>, k: int, acc: u32)
    requires
        0 <= k,
    ensures
        varint_decode_from(b, k, acc) matches VarIntDecode::Value { value: _, len } ==> k < len
            <= b.len() && len <= 5,
    decreases 5 - k,
{
    if 0 <= k < b.len() && k < 5 {
        let bk = b[k];
        let acc2 = acc | (((bk & 0x7f) as u32) << ((7 * k) as u32));
        lemma_varint_len_bound(b, k + 1, acc2);
    }
}

/// Reads a status response from the bytes received so far: `NeedMore` while it is
/// incomplete, the JSON text once it is there, or the error that the response makes.
pub fn parse_status_response(bytes: &[u8]) -> (r: StatusRead)
    ensures
        match status_outcome(bytes@) {
            StatusOutcome::NeedMore => r is NeedMore,
            StatusOutcome::TooBig => r matches StatusRead::Failed(AppError::Process(m)) && m@
                == "VarInt too big"@,
            StatusOutcome::BadPacketId => r matches StatusRead::Failed(AppError::Process(m))
                && m@ == "Неверный ID ответа сервера"@,
            StatusOutcome::NegativeLength => r matches StatusRead::Failed(AppError::Process(m))
                && m@ == "Отрицательная длина ответа сервера"@,
            StatusOutcome::Json(text) => if valid_utf8(text) {
                r matches StatusRead::Json(s) && s@ == decode_utf8(text)
            } else {
                r matches StatusRead::Failed(AppError::Process(m)) && seq_starts_with_bytes(
                    m@,
                    "UTF-8 decoding error: "@,
                )
            },
        },
{
    let d1 = decode_varint(bytes);
    let n1 = match d1 {
        VarIntDecode::Incomplete => { return StatusRead::NeedMore; },
        VarIntDecode::TooBig => { return too_big(); },
        VarIntDecode::Value { value: _, len } => len,
    };
    proof { lemma_varint_len_bound(bytes@, 0, 0); }
    let b2 = &bytes[n1..bytes.len()];
    assert(b2@ =~= bytes@.skip(n1 as int));
    let d2 = decode_varint(b2);
    let (id, n2) = match d2 {
        VarIntDecode::Incomplete => { return StatusRead::NeedMore; },
        VarIntDecode::TooBig => { return too_big(); },
        VarIntDecode::Value { value, len } => (value, len),
    };
    if id != 0 {
        return StatusRead::Failed(AppError::Process(string_from("Неверный ID ответа сервера")));
    }
    proof { lemma_varint_len_bound(b2@, 0, 0); }
    let b3 = &b2[n2..b2.len()];
    assert(b3@ =~= b2@.skip(n2 as int));
    let d3 = decode_varint(b3);
    let (json_len, n3) = match d3 {
        VarIntDecode::Incomplete => { return StatusRead::NeedMore; },
        VarIntDecode::TooBig => { return too_big(); },
        VarIntDecode::Value { value, len } => (value, len),
    };
    if json_len < 0 {
        return StatusRead::Failed(
            AppError::Process(string_from("Отрицательная длина ответа сервера")),
        );
    }
    proof { lemma_varint_len_bound(b3@, 0, 0); }
    let b4 = &b3[n3..b3.len()];
    assert(b4@ =~= b3@.skip(n3 as int));
    let want: usize = json_len as usize;
    if b4.len() < want {
        return StatusRead::NeedMore;
    }
    let text = &b4[0..want];
    assert(text@ =~= b4@.take(json_len as int));
    let mut owned: Vec<u8> = Vec::new();
    owned.extend_from_slice(text);
    assert(owned@ =~= text@);
    match utf8_decode(owned) {
        Ok(s) => StatusRead::Json(s),
        Err(e) => {
            let m = concat("UTF-8 decoding error: ", e.as_str());
            assert(m@.subrange(0, "UTF-8 decoding error: "@.len() as int)
                =~= "UTF-8 decoding error: "@);
            StatusRead::Failed(AppError::Process(m))
        },
    }
}

pub open spec fn seq_starts_with_bytes(s: Seq<char>, p: Seq<char>) -> bool {
    p.len() <= s.len() && s.subrange(0, p.len() as int) == p
}

fn too_big() -> (r: StatusRead)
    ensures
        r matches StatusRead::Failed(AppError::Process(m)) && m@ == "VarInt too big"@,
{
    StatusRead::Failed(AppError::Process(string_from("VarInt too big")))
}

/// Checks the packet id of a status response read from a stream: it must be 0.
pub fn check_status_packet_id(packet_id: i32) -> (r: Result<(), AppError>)
    ensures
        packet_id == 0 <==> r.is_ok(),
        r matches Err(AppError::Process(m)) ==> m@ == "Неверный ID ответа сервера"@,
        r matches Err(e) ==> e is Process,
{
    if packet_id != 0 {
        return Err(AppError::Process(string_from("Неверный ID ответа сервера")));
    }
    Ok(())
}

} // verus!
