//! The wire codec: the five packet kinds and their layout in a datagram.
//!
//! All multi-byte integers are big-endian. The layouts are
//!
//! | packet | bytes                                               |
//! |--------|-----------------------------------------------------|
//! | RRQ    | `00 01`, filename, `00`, `"netascii"`, `00`         |
//! | WRQ    | `00 02`, filename, `00`, `"netascii"`, `00`         |
//! | DATA   | `00 03`, block number, payload of at most 512 bytes |
//! | ACK    | `00 04`, block number                               |
//! | ERROR  | `00 05`, error code, message                        |

use vstd::prelude::*;

verus! {

/// The largest payload of a DATA packet, in bytes.
pub const BLOCK_SIZE: usize = 512;

/// The largest datagram of the protocol: opcode, block number and a full payload.
pub const MAX_FRAME: usize = 516;

/// The kind of a packet, sent as the first two bytes of every datagram.
#[derive(Clone, Copy, Debug, PartialEq, Eq, Structural)]
pub enum Opcode {
    ReadRequest,
    WriteRequest,
    Data,
    Acknowledgment,
    Error,
}

impl Opcode {
    /// The number that stands for this opcode on the wire.
    pub open spec fn code(self) -> u16 {
        match self {
            Opcode::ReadRequest => 1,
            Opcode::WriteRequest => 2,
            Opcode::Data => 3,
            Opcode::Acknowledgment => 4,
            Opcode::Error => 5,
        }
    }

    /// The opcode that a number stands for, if any.
    pub open spec fn of_code(code: int) -> Option<Opcode> {
        if code == 1 {
            Some(Opcode::ReadRequest)
        } else if code == 2 {
            Some(Opcode::WriteRequest)
        } else if code == 3 {
            Some(Opcode::Data)
        } else if code == 4 {
            Some(Opcode::Acknowledgment)
        } else if code == 5 {
            Some(Opcode::Error)
        } else {
            None
        }
    }

    /// Whether this opcode opens a transfer.
    pub open spec fn is_request(self) -> bool {
        self == Opcode::ReadRequest || self == Opcode::WriteRequest
    }

    /// The number that stands for this opcode on the wire.
    pub fn value(self) -> (code: u16)
        ensures
            code == self.code(),
    {
        match self {
            Opcode::ReadRequest => 1,
            Opcode::WriteRequest => 2,
            Opcode::Data => 3,
            Opcode::Acknowledgment => 4,
            Opcode::Error => 5,
        }
    }
}

/// The value of two bytes read as a big-endian integer.
pub open spec fn be16(hi: u8, lo: u8) -> int {
    hi * 256 + lo
}

/// The two bytes that hold `value` in big-endian order.
pub open spec fn be16_bytes(value: u16) -> Seq<u8> {
    seq![(value / 256) as u8, (value % 256) as u8]
}

/// Reading back the two bytes of a value gives the value.
pub proof fn lemma_be16_round_trip(value: u16)
    ensures
        be16_bytes(value).len() == 2,
        be16(be16_bytes(value)[0], be16_bytes(value)[1]) == value,
{
}

/// Reads two bytes as a big-endian integer.
pub fn read_u16(hi: u8, lo: u8) -> (value: u16)
    ensures
        value == be16(hi, lo),
{
    (hi as u16) * 256 + (lo as u16)
}

/// Appends `bytes` to `out`.
fn append(out: &mut Vec<u8>, bytes: &[u8])
    ensures
        final(out)@ == old(out)@ + bytes@,
{
    let mut i: usize = 0;
    while i < bytes.len()
        invariant
            i <= bytes@.len(),
            out@ == old(out)@ + bytes@.take(i as int),
        decreases bytes@.len() - i,
    {
        out.push(bytes[i]);
        i += 1;
    }
}

/// Appends `value` to `out` as two big-endian bytes.
fn append_u16(out: &mut Vec<u8>, value: u16)
    ensures
        final(out)@ == old(out)@ + be16_bytes(value),
{
    out.push((value / 256) as u8);
    out.push((value % 256) as u8);
}

/// The transfer mode of every request: the ASCII bytes of `netascii`.
pub open spec fn netascii() -> Seq<u8> {
    seq![110u8, 101u8, 116u8, 97u8, 115u8, 99u8, 105u8, 105u8]
}

/// The datagram of a request: opcode, filename, NUL, mode, NUL.
pub open spec fn request_frame(opcode: Opcode, filename: Seq<u8>) -> Seq<u8> {
    be16_bytes(opcode.code()) + filename + seq![0u8] + netascii() + seq![0u8]
}

/// The datagram of a DATA packet: opcode 3, block number, payload.
pub open spec fn data_frame(block: u16, payload: Seq<u8>) -> Seq<u8> {
    be16_bytes(3) + be16_bytes(block) + payload
}

/// The datagram of an ACK packet: opcode 4, block number.
pub open spec fn ack_frame(block: u16) -> Seq<u8> {
    be16_bytes(4) + be16_bytes(block)
}

/// Encodes a request for `filename` in mode `netascii`.
///
/// The layout is written for any filename. A filename that holds a NUL byte gives a
/// datagram that a receiver cuts short at that byte.
pub fn encode_request(opcode: Opcode, filename: &[u8]) -> (frame: Vec<u8>)
    ensures
        frame@ == request_frame(opcode, filename@),
{
    let mut frame: Vec<u8> = Vec::new();
    append_u16(&mut frame, opcode.value());
    append(&mut frame, filename);
    frame.push(0);
    frame.push(110);
    frame.push(101);
    frame.push(116);
    frame.push(97);
    frame.push(115);
    frame.push(99);
    frame.push(105);
    frame.push(105);
    frame.push(0);
    frame
}

/// Encodes a DATA packet.
pub fn encode_data(block: u16, payload: &[u8]) -> (frame: Vec<u8>)
    requires
        payload@.len() <= BLOCK_SIZE,
    ensures
        frame@ == data_frame(block, payload@),
{
    let mut frame: Vec<u8> = Vec::new();
    append_u16(&mut frame, 3);
    append_u16(&mut frame, block);
    append(&mut frame, payload);
    frame
}

/// Encodes an ACK packet.
pub fn encode_ack(block: u16) -> (frame: Vec<u8>)
    ensures
        frame@ == ack_frame(block),
{
    let mut frame: Vec<u8> = Vec::new();
    append_u16(&mut frame, 4);
    append_u16(&mut frame, block);
    frame
}

/// The opcode of a datagram: its first two bytes, where they name one.
pub open spec fn opcode_of(bytes: Seq<u8>) -> Option<Opcode> {
    if bytes.len() < 2 {
        None
    } else {
        Opcode::of_code(be16(bytes[0], bytes[1]))
    }
}

/// Reads the opcode of a datagram.
///
/// The result is `None` where the datagram is shorter than two bytes or its first two
/// bytes are no number from 1 to 5.
pub fn decode_opcode(bytes: &[u8]) -> (opcode: Option<Opcode>)
    ensures
        opcode == opcode_of(bytes@),
{
    if bytes.len() < 2 {
        return None;
    }
    let code: u16 = read_u16(bytes[0], bytes[1]);
    if code == 1 {
        Some(Opcode::ReadRequest)
    } else if code == 2 {
        Some(Opcode::WriteRequest)
    } else if code == 3 {
        Some(Opcode::Data)
    } else if code == 4 {
        Some(Opcode::Acknowledgment)
    } else if code == 5 {
        Some(Opcode::Error)
    } else {
        None
    }
}

/// A packet of the protocol.
#[derive(Debug)]
pub enum Packet {
    /// A read or write request for `filename` in transfer mode `mode`.
    Request { opcode: Opcode, filename: Vec<u8>, mode: Vec<u8> },
    /// A block of the file: at most 512 bytes.
    Data { block: u16, payload: Vec<u8> },
    /// The acknowledgment of a block.
    Ack { block: u16 },
    /// An error reported by the peer. The message is all that follows the code.
    Error { code: u16, message: Vec<u8> },
}

/// What a [`Packet`] holds, as mathematical values.
pub ghost enum PacketView {
    Request { opcode: Opcode, filename: Seq<u8>, mode: Seq<u8> },
    Data { block: u16, payload: Seq<u8> },
    Ack { block: u16 },
    Error { code: u16, message: Seq<u8> },
}

impl View for Packet {
    type V = PacketView;

    open spec fn view(&self) -> PacketView {
        match *self {
            Packet::Request { opcode, filename, mode } => PacketView::Request {
                opcode,
                filename: filename@,
                mode: mode@,
            },
            Packet::Data { block, payload } => PacketView::Data { block, payload: payload@ },
            Packet::Ack { block } => PacketView::Ack { block },
            Packet::Error { code, message } => PacketView::Error { code, message: message@ },
        }
    }
}

/// Whether no byte of `bytes` is NUL.
pub open spec fn no_nul(bytes: Seq<u8>) -> bool {
    forall|i: int| 0 <= i < bytes.len() ==> bytes[i] != 0
}

/// The position of the first NUL byte of `bytes`, or its length where it holds none.
pub open spec fn first_nul(bytes: Seq<u8>) -> int
    decreases bytes.len(),
{
    if bytes.len() == 0 || bytes[0] == 0 {
        0
    } else {
        1 + first_nul(bytes.skip(1))
    }
}

/// `first_nul` is the one position that holds a NUL byte after none.
pub proof fn lemma_first_nul(bytes: Seq<u8>, at: int)
    requires
        0 <= at <= bytes.len(),
        no_nul(bytes.take(at)),
        at < bytes.len() ==> bytes[at] == 0,
    ensures
        first_nul(bytes) == at,
    decreases at,
{
    if at > 0 {
        assert(bytes.take(at)[0] == bytes[0]);
        let rest = bytes.skip(1);
        let front = rest.take(at - 1);
        assert forall|i: int| 0 <= i < front.len() implies front[i] != 0 by {
            assert(front[i] == bytes.take(at)[i + 1]);
        }
        lemma_first_nul(rest, at - 1);
    }
}

/// The request that a body (all that follows the opcode) spells out: a filename and a
/// mode, each closed by a NUL byte, and nothing after them.
pub open spec fn request_of(opcode: Opcode, body: Seq<u8>) -> Option<PacketView> {
    let name_end = first_nul(body);
    let rest = body.skip(name_end + 1);
    let mode_end = first_nul(rest);
    if name_end < body.len() && mode_end + 1 == rest.len() {
        Some(
            PacketView::Request {
                opcode,
                filename: body.take(name_end),
                mode: rest.take(mode_end),
            },
        )
    } else {
        None
    }
}

/// The packet that a datagram holds.
///
/// DATA, ACK and ERROR are read by position: bytes 2 and 3 are the block number or the
/// error code, and what follows is the payload or the message. A datagram holds no
/// packet where its opcode is unknown, where it ends before its fixed fields do, where
/// a request lacks one of its two NUL-closed strings or goes on after them, or where a
/// DATA packet is longer than 516 bytes.
pub open spec fn decode_frame(bytes: Seq<u8>) -> Option<PacketView> {
    match opcode_of(bytes) {
        None => None,
        Some(Opcode::ReadRequest) => request_of(Opcode::ReadRequest, bytes.skip(2)),
        Some(Opcode::WriteRequest) => request_of(Opcode::WriteRequest, bytes.skip(2)),
        Some(Opcode::Data) => if 4 <= bytes.len() <= MAX_FRAME {
            Some(PacketView::Data { block: be16(bytes[2], bytes[3]) as u16, payload: bytes.skip(4) })
        } else {
            None
        },
        Some(Opcode::Acknowledgment) => if 4 <= bytes.len() {
            Some(PacketView::Ack { block: be16(bytes[2], bytes[3]) as u16 })
        } else {
            None
        },
        Some(Opcode::Error) => if 4 <= bytes.len() {
            Some(PacketView::Error { code: be16(bytes[2], bytes[3]) as u16, message: bytes.skip(4) })
        } else {
            None
        },
    }
}

/// Finds the first NUL byte of `bytes` at or after `from`.
fn find_nul(bytes: &[u8], from: usize) -> (at: usize)
    requires
        from <= bytes@.len(),
    ensures
        from <= at <= bytes@.len(),
        at - from == first_nul(bytes@.skip(from as int)),
{
    let mut at: usize = from;
    while at < bytes.len() && bytes[at] != 0
        invariant
            from <= at <= bytes@.len(),
            no_nul(bytes@.skip(from as int).take(at - from)),
        decreases bytes@.len() - at,
    {
        at += 1;
    }
    proof {
        lemma_first_nul(bytes@.skip(from as int), at - from);
    }
    at
}

/// Copies `bytes[from..to]`.
fn copy_range(bytes: &[u8], from: usize, to: usize) -> (out: Vec<u8>)
    requires
        from <= to <= bytes@.len(),
    ensures
        out@ == bytes@.subrange(from as int, to as int),
{
    let mut out: Vec<u8> = Vec::new();
    let mut i: usize = from;
    while i < to
        invariant
            from <= i <= to <= bytes@.len(),
            out@ == bytes@.subrange(from as int, i as int),
        decreases to - i,
    {
        out.push(bytes[i]);
        i += 1;
    }
    out
}

/// Reads the body of a request, which starts at byte 2 of `bytes`.
fn decode_request(opcode: Opcode, bytes: &[u8]) -> (packet: Option<Packet>)
    requires
        bytes@.len() >= 2,
    ensures
        match packet {
            Some(p) => request_of(opcode, bytes@.skip(2)) == Some(p@),
            None => request_of(opcode, bytes@.skip(2)) is None,
        },
{
    let len: usize = bytes.len();
    let name_end: usize = find_nul(bytes, 2);
    if name_end >= len {
        return None;
    }
    let mode_end: usize = find_nul(bytes, name_end + 1);
    proof {
        let body = bytes@.skip(2);
        assert(body.skip(name_end - 2 + 1) == bytes@.skip(name_end + 1));
    }
    if mode_end >= len || mode_end + 1 != len {
        return None;
    }
    let filename = copy_range(bytes, 2, name_end);
    let mode = copy_range(bytes, name_end + 1, mode_end);
    proof {
        let body = bytes@.skip(2);
        assert(body.take(name_end - 2) == bytes@.subrange(2, name_end as int));
        assert(bytes@.skip(name_end + 1).take(mode_end - name_end - 1) == bytes@.subrange(
            name_end + 1,
            mode_end as int,
        ));
    }
    Some(Packet::Request { opcode, filename, mode })
}

/// Decodes a datagram.
///
/// The result is `None` exactly where the datagram holds no packet: see
/// [`decode_frame`].
pub fn decode(bytes: &[u8]) -> (packet: Option<Packet>)
    ensures
        match packet {
            Some(p) => decode_frame(bytes@) == Some(p@),
            None => decode_frame(bytes@) is None,
        },
{
    let len: usize = bytes.len();
    match decode_opcode(bytes) {
        None => None,
        Some(Opcode::ReadRequest) => decode_request(Opcode::ReadRequest, bytes),
        Some(Opcode::WriteRequest) => decode_request(Opcode::WriteRequest, bytes),
        Some(Opcode::Data) => {
            if len < 4 || len > MAX_FRAME {
                None
            } else {
                let block: u16 = read_u16(bytes[2], bytes[3]);
                Some(Packet::Data { block, payload: copy_range(bytes, 4, len) })
            }
        },
        Some(Opcode::Acknowledgment) => {
            if len < 4 {
                None
            } else {
                Some(Packet::Ack { block: read_u16(bytes[2], bytes[3]) })
            }
        },
        Some(Opcode::Error) => {
            if len < 4 {
                None
            } else {
                let code: u16 = read_u16(bytes[2], bytes[3]);
                Some(Packet::Error { code, message: copy_range(bytes, 4, len) })
            }
        },
    }
}

/// Decoding an encoded request gives back its opcode, its filename and the mode
/// `netascii`, for every filename that holds no NUL byte.
pub proof fn lemma_request_round_trip(opcode: Opcode, filename: Seq<u8>)
    requires
        opcode.is_request(),
        no_nul(filename),
    ensures
        decode_frame(request_frame(opcode, filename)) == Some(
            PacketView::Request { opcode, filename, mode: netascii() },
        ),
{
    let frame = request_frame(opcode, filename);
    let body = filename + seq![0u8] + netascii() + seq![0u8];
    assert(frame.skip(2) == body);
    assert(opcode_of(frame) == Some(opcode));
    let name_end = filename.len() as int;
    assert(body.take(name_end) == filename);
    lemma_first_nul(body, name_end);
    let rest = body.skip(name_end + 1);
    assert(rest == netascii() + seq![0u8]);
    assert(rest.take(8) == netascii());
    lemma_first_nul(rest, 8);
}

/// Decoding an encoded DATA packet gives back its block number and its payload, for
/// every block number and every payload of at most 512 bytes.
pub proof fn lemma_data_round_trip(block: u16, payload: Seq<u8>)
    requires
        payload.len() <= BLOCK_SIZE,
    ensures
        decode_frame(data_frame(block, payload)) == Some(PacketView::Data { block, payload }),
{
    let frame = data_frame(block, payload);
    lemma_be16_round_trip(block);
    assert(frame.skip(4) == payload);
}

/// Decoding an encoded ACK packet gives back its block number.
pub proof fn lemma_ack_round_trip(block: u16)
    ensures
        decode_frame(ack_frame(block)) == Some(PacketView::Ack { block }),
{
    lemma_be16_round_trip(block);
}

} // verus!
