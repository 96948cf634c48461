//! The Discord IPC wire frame and the writing side of a Discord IPC connection.
use vstd::prelude::*;
use vstd::string::*;
use vstd::utf8::*;

verus! {

/// `std::io::Error`, the error of every operation on a Discord IPC connection.
#[verifier::external_type_specification]
#[verifier::external_body]
pub struct ExIoError(std::io::Error);

/// The four bytes of `n` in little-endian order.
pub open spec fn u32_le_bytes(n: u32) -> Seq<u8> {
    seq![
        (n % 256) as u8,
        ((n / 256) % 256) as u8,
        ((n / 65536) % 256) as u8,
        ((n / 16777216) % 256) as u8,
    ]
}

/// A Discord IPC frame: the op code and the payload length, both as little-endian
/// `u32`, then the payload. A length that does not fit in 32 bits is truncated.
pub open spec fn frame_bytes(op_code: u32, payload: Seq<u8>) -> Seq<u8> {
    u32_le_bytes(op_code) + u32_le_bytes(payload.len() as u32) + payload
}

/// The number that four little-endian bytes stand for.
pub open spec fn u32_from_le_bytes(b: Seq<u8>) -> int {
    b[0] + 256 * b[1] + 65536 * b[2] + 16777216 * b[3]
}

/// Reading the four bytes of `n` back gives `n`.
pub proof fn lemma_u32_le_roundtrip(n: u32)
    ensures
        u32_le_bytes(n).len() == 4,
        u32_from_le_bytes(u32_le_bytes(n)) == n,
{
    let b = u32_le_bytes(n);
    assert(n == (n % 256) + 256 * ((n / 256) % 256) + 65536 * ((n / 65536) % 256) + 16777216 * ((
    n / 16777216) % 256)) by (bit_vector);
    assert(b[0] == n % 256);
    assert(b[1] == (n / 256) % 256);
    assert(b[2] == (n / 65536) % 256);
    assert(b[3] == (n / 16777216) % 256);
}

/// A frame reads back as it was written: its first four bytes give the op code, the
/// next four the payload length (when it fits in 32 bits), and the rest is the payload.
pub proof fn lemma_frame_reads_back(op_code: u32, payload: Seq<u8>)
    requires
        payload.len() <= u32::MAX,
    ensures
        frame_bytes(op_code, payload).len() == payload.len() + 8,
        u32_from_le_bytes(frame_bytes(op_code, payload).subrange(0, 4)) == op_code,
        u32_from_le_bytes(frame_bytes(op_code, payload).subrange(4, 8)) == payload.len(),
        frame_bytes(op_code, payload).subrange(8, payload.len() as int + 8) == payload,
{
    let f = frame_bytes(op_code, payload);
    let len = payload.len() as u32;
    lemma_u32_le_roundtrip(op_code);
    lemma_u32_le_roundtrip(len);
    assert(f.subrange(0, 4) =~= u32_le_bytes(op_code));
    assert(f.subrange(4, 8) =~= u32_le_bytes(len));
    assert(f.subrange(8, payload.len() as int + 8) =~= payload);
}

/// `bytes::BufMut::put_u32_le` on a `Vec<u8>`: appends the little-endian bytes of `n`
/// (through `put_slice`, which for a vector is `extend_from_slice`). It panics only
/// where the vector would outgrow `isize::MAX` bytes.
#[verifier::external_body]
fn put_u32_le(buf: &mut Vec<u8>, n: u32)
    requires
        old(buf).len() + 4 <= isize::MAX,
    ensures
        final(buf)@ == old(buf)@ + u32_le_bytes(n),
{
    bytes::BufMut::put_u32_le(buf, n)
}

/// `bytes::BufMut::put` on a `Vec<u8>` with a byte slice as the source: appends every
/// byte of `src`, in order. It panics only where the vector would outgrow
/// `isize::MAX` bytes.
#[verifier::external_body]
fn put_bytes(buf: &mut Vec<u8>, src: &[u8])
    requires
        old(buf).len() + src@.len() <= isize::MAX,
    ensures
        final(buf)@ == old(buf)@ + src@,
{
    bytes::BufMut::put(buf, src)
}

/// The frame that carries `json` with `op_code` to a Discord client.
pub fn discord_frame(op_code: u32, json: &str) -> (frame: Vec<u8>)
    requires
        json.spec_bytes().len() + 8 <= isize::MAX,
    ensures
        frame@ == frame_bytes(op_code, json.spec_bytes()),
        frame@.len() == json.spec_bytes().len() + 8,
        frame@.subrange(8, frame@.len() as int) == json.spec_bytes(),
        frame@[0] as int + 256 * frame@[1] + 65536 * frame@[2] + 16777216 * frame@[3] == op_code,
        json.spec_bytes().len() <= u32::MAX ==> frame@[4] as int + 256 * frame@[5] + 65536
            * frame@[6] + 16777216 * frame@[7] == json.spec_bytes().len(),
{
    let mut packet: Vec<u8> = Vec::new();
    put_u32_le(&mut packet, op_code);
    let len: u32 = json.len() as u32;
    put_u32_le(&mut packet, len);
    put_bytes(&mut packet, json.as_bytes());
    proof {
        lemma_u32_le_roundtrip(op_code);
        if json.spec_bytes().len() <= u32::MAX {
            lemma_frame_reads_back(op_code, json.spec_bytes());
        }
        let f = packet@;
        assert(f.subrange(0, 4) =~= u32_le_bytes(op_code));
        assert(f.subrange(8, f.len() as int) =~= json.spec_bytes());
        assert(f.subrange(0, 4)[0] == f[0] && f.subrange(0, 4)[1] == f[1] && f.subrange(0, 4)[2]
            == f[2] && f.subrange(0, 4)[3] == f[3]);
        assert(f.subrange(4, 8)[0] == f[4] && f.subrange(4, 8)[1] == f[5] && f.subrange(4, 8)[2]
            == f[6] && f.subrange(4, 8)[3] == f[7]);
    }
    packet
}

/// The writing side of a connection to a Discord client.
pub trait DiscordWrite: Sized {
    /// Writes `data` as it is.
    fn send_data(&mut self, data: Vec<u8>) -> Result<(), std::io::Error>;

    /// Closes the writing side of the connection.
    fn shutdown(&mut self) -> Result<(), std::io::Error>;

    /// Writes `json` framed with `op_code` (see [`discord_frame`]): this is one call of
    /// `send_data` on this writer, handed the frame, and its result is that call's.
    fn send_packet(&mut self, op_code: u32, json: String) -> (r: Result<(), std::io::Error>)
        requires
            encode_utf8(json@).len() + 8 <= isize::MAX,
        ensures
            exists|writer: &mut Self, frame: Vec<u8>|
                {
                    &&& *writer == *old(self)
                    &&& *final(writer) == *final(self)
                    &&& frame@ == frame_bytes(op_code, encode_utf8(json@))
                    &&& call_ensures(Self::send_data, (writer, frame), r)
                },
    {
        let frame = discord_frame(op_code, json.as_str());
        let ghost framed = frame;
        let send = Self::send_data;
        let r = send(self, frame);
        assert(exists|writer: &mut Self|
            *writer == *old(self) && *final(writer) == *self && call_ensures(
                send,
                (writer, framed),
                r,
            ));
        r
    }
}

} // verus!
