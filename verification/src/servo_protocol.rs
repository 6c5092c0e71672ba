//! ST3215 bus protocol.
//!
//! Every frame, request or reply, reads
//! `0xFF 0xFF ID Length Instruction Param... Checksum`, where `Length` counts
//! the instruction (or error) byte, the parameters and the checksum, and the
//! checksum is `~(ID + Length + Instruction + Params) & 0xFF`.
//! Multi-byte register values are little-endian.
use vstd::prelude::*;
use vstd::slice::{slice_subrange, slice_to_vec};
pub use crate::registers::{get_register_table, RegisterInfo};

verus! {

// Instructions
pub const INST_PING: u8 = 0x01;
pub const INST_READ: u8 = 0x02;
pub const INST_WRITE: u8 = 0x03;
pub const INST_REG_WRITE: u8 = 0x04;
pub const INST_ACTION: u8 = 0x05;
pub const INST_RESET: u8 = 0x06;
pub const INST_SYNC_READ: u8 = 0x82;
pub const INST_SYNC_WRITE: u8 = 0x83;

// Memory table, EPROM area (kept across power cycles)
pub const ADDR_FIRMWARE_MAJOR: u8 = 0;
pub const ADDR_FIRMWARE_MINOR: u8 = 1;
pub const ADDR_SERVO_MAJOR: u8 = 3;
pub const ADDR_SERVO_MINOR: u8 = 4;
pub const ADDR_ID: u8 = 5;
pub const ADDR_BAUD_RATE: u8 = 6;
pub const ADDR_RETURN_DELAY: u8 = 7;
pub const ADDR_RESPONSE_LEVEL: u8 = 8;
pub const ADDR_MIN_ANGLE: u8 = 9;
pub const ADDR_MAX_ANGLE: u8 = 11;
pub const ADDR_MAX_TEMP: u8 = 13;
pub const ADDR_MAX_VOLTAGE: u8 = 14;
pub const ADDR_MIN_VOLTAGE: u8 = 15;
pub const ADDR_MAX_TORQUE: u8 = 16;
pub const ADDR_PHASE: u8 = 18;
pub const ADDR_UNLOAD_COND: u8 = 19;
pub const ADDR_LED_ALARM: u8 = 20;
pub const ADDR_POS_P: u8 = 21;
pub const ADDR_POS_D: u8 = 22;
pub const ADDR_POS_I: u8 = 23;
pub const ADDR_MIN_STARTUP_FORCE: u8 = 24;
pub const ADDR_INTEGRAL_LIMIT: u8 = 25;
pub const ADDR_CW_DEAD_ZONE: u8 = 26;
pub const ADDR_CCW_DEAD_ZONE: u8 = 27;
pub const ADDR_PROTECT_CURRENT: u8 = 28;
pub const ADDR_ANGLE_RESOLUTION: u8 = 30;
pub const ADDR_POS_CORRECTION: u8 = 31;
pub const ADDR_OPERATION_MODE: u8 = 33;
pub const ADDR_PROTECT_TORQUE: u8 = 34;
pub const ADDR_PROTECT_TIME: u8 = 35;
pub const ADDR_OVERLOAD_TORQUE: u8 = 36;
pub const ADDR_SPEED_P: u8 = 37;
pub const ADDR_OVERCURRENT_TIME: u8 = 38;
pub const ADDR_SPEED_I: u8 = 39;

// Memory table, SRAM area (lost at power off)
pub const ADDR_TORQUE_SWITCH: u8 = 40;
pub const ADDR_ACCELERATION: u8 = 41;
pub const ADDR_TARGET_POSITION: u8 = 42;
pub const ADDR_RUNNING_TIME: u8 = 44;
pub const ADDR_RUNNING_SPEED: u8 = 46;
pub const ADDR_TORQUE_LIMIT: u8 = 48;
pub const ADDR_LOCK_FLAG: u8 = 55;
pub const ADDR_CURRENT_POSITION: u8 = 56;
pub const ADDR_CURRENT_SPEED: u8 = 58;
pub const ADDR_CURRENT_LOAD: u8 = 60;
pub const ADDR_CURRENT_VOLTAGE: u8 = 62;
pub const ADDR_CURRENT_TEMP: u8 = 63;
pub const ADDR_ASYNC_WRITE_FLAG: u8 = 64;
pub const ADDR_SERVO_STATUS: u8 = 65;
pub const ADDR_MOVING_FLAG: u8 = 66;
pub const ADDR_CURRENT_CURRENT: u8 = 69;

pub const BROADCAST_ID: u8 = 0xFE;

/// Sum of all bytes of `s`, as a mathematical integer.
pub open spec fn byte_sum(s: Seq<u8>) -> int
    decreases s.len(),
{
    if s.len() == 0 {
        0
    } else {
        byte_sum(s.drop_last()) + s.last()
    }
}

/// `~(id + length + instruction + params) & 0xFF`: the byte that brings the
/// sum of the covered bytes to 255 modulo 256.
pub open spec fn checksum_spec(id: u8, length: u8, instruction: u8, params: Seq<u8>) -> u8 {
    (255 - (id + length + instruction + byte_sum(params)) % 256) as u8
}

/// The length byte of a frame with `n` parameters: the count of the
/// instruction byte, the parameters and the checksum, kept to its low byte.
pub open spec fn length_byte(n: nat) -> u8 {
    ((n + 2) % 256) as u8
}

/// The frame that carries `instruction` and `params` to or from servo `id`.
pub open spec fn packet_spec(id: u8, instruction: u8, params: Seq<u8>) -> Seq<u8> {
    let length = length_byte(params.len());
    seq![0xFFu8, 0xFFu8, id, length, instruction] + params + seq![
        checksum_spec(id, length, instruction, params),
    ]
}

/// Computes the checksum of a frame:
/// `~(ID + Length + Instruction + Params) & 0xFF`.
pub fn calc_checksum(id: u8, length: u8, instruction: u8, params: &[u8]) -> (checksum: u8)
    ensures
        checksum == checksum_spec(id, length, instruction, params@),
{
    let mut sum: u8 = ((id as u16 + length as u16 + instruction as u16) % 256) as u8;
    let mut i: usize = 0;
    while i < params.len()
        invariant
            i <= params@.len(),
            sum as int == (id + length + instruction + byte_sum(params@.take(i as int))) % 256,
        decreases params@.len() - i,
    {
        proof {
            assert(params@.take(i + 1).drop_last() =~= params@.take(i as int));
        }
        sum = ((sum as u16 + params[i] as u16) % 256) as u8;
        i = i + 1;
    }
    proof {
        assert(params@.take(params@.len() as int) =~= params@);
    }
    255 - sum
}


/// Builds the request frame that sends `instruction` with `params` to servo
/// `id`. The length byte keeps only the low byte of `params.len() + 2`.
pub fn build_packet(id: u8, instruction: u8, params: &[u8]) -> (packet: Vec<u8>)
    ensures
        packet@ == packet_spec(id, instruction, params@),
{
    let length: u8 = ((params.len() % 256 + 2) % 256) as u8;
    let checksum = calc_checksum(id, length, instruction, params);
    let mut packet = vec![0xFFu8, 0xFFu8, id, length, instruction];
    let mut body = slice_to_vec(params);
    packet.append(&mut body);
    packet.push(checksum);
    proof {
        assert(length == length_byte(params@.len()));
        assert(packet@ =~= packet_spec(id, instruction, params@));
    }
    packet
}

/// Builds a PING request.
pub fn build_ping(id: u8) -> (packet: Vec<u8>)
    ensures
        packet@ == packet_spec(id, INST_PING, seq![]),
{
    let params: [u8; 0] = [];
    let packet = build_packet(id, INST_PING, &params);
    proof {
        assert(params@ =~= Seq::<u8>::empty());
    }
    packet
}

/// Builds a READ request for `read_len` bytes from `start_addr` on.
pub fn build_read(id: u8, start_addr: u8, read_len: u8) -> (packet: Vec<u8>)
    ensures
        packet@ == packet_spec(id, INST_READ, seq![start_addr, read_len]),
{
    let params: [u8; 2] = [start_addr, read_len];
    let packet = build_packet(id, INST_READ, &params);
    proof {
        assert(params@ =~= seq![start_addr, read_len]);
    }
    packet
}

/// The parameters of a (deferred) write: the start address, then the data.
pub open spec fn write_params(start_addr: u8, data: Seq<u8>) -> Seq<u8> {
    seq![start_addr] + data
}

fn write_params_vec(start_addr: u8, data: &[u8]) -> (params: Vec<u8>)
    ensures
        params@ == write_params(start_addr, data@),
{
    let mut params = vec![start_addr];
    let mut rest = slice_to_vec(data);
    params.append(&mut rest);
    params
}

/// Builds a WRITE request that stores `data` from `start_addr` on.
pub fn build_write(id: u8, start_addr: u8, data: &[u8]) -> (packet: Vec<u8>)
    ensures
        packet@ == packet_spec(id, INST_WRITE, write_params(start_addr, data@)),
{
    let params = write_params_vec(start_addr, data);
    build_packet(id, INST_WRITE, params.as_slice())
}

/// Builds a REG WRITE request: the servo holds `data` for `start_addr` until
/// an ACTION arrives.
pub fn build_reg_write(id: u8, start_addr: u8, data: &[u8]) -> (packet: Vec<u8>)
    ensures
        packet@ == packet_spec(id, INST_REG_WRITE, write_params(start_addr, data@)),
{
    let params = write_params_vec(start_addr, data);
    build_packet(id, INST_REG_WRITE, params.as_slice())
}

/// Builds the ACTION request, broadcast to every servo on the bus.
pub fn build_action() -> (packet: Vec<u8>)
    ensures
        packet@ == packet_spec(BROADCAST_ID, INST_ACTION, seq![]),
{
    let params: [u8; 0] = [];
    let packet = build_packet(BROADCAST_ID, INST_ACTION, &params);
    proof {
        assert(params@ =~= Seq::<u8>::empty());
    }
    packet
}

/// Builds a RESET request.
pub fn build_reset(id: u8) -> (packet: Vec<u8>)
    ensures
        packet@ == packet_spec(id, INST_RESET, seq![]),
{
    let params: [u8; 0] = [];
    let packet = build_packet(id, INST_RESET, &params);
    proof {
        assert(params@ =~= Seq::<u8>::empty());
    }
    packet
}


/// Why a reply frame was refused.
#[derive(Debug, Clone, Copy, PartialEq, Eq, Structural)]
pub enum ResponseError {
    /// Fewer than the 6 bytes of the smallest frame.
    TooShort,
    /// The frame does not open with `0xFF 0xFF`.
    BadHeader,
    /// The length byte announces more bytes than arrived.
    Incomplete { expected_len: usize, actual_len: usize },
    /// The checksum byte differs from the one computed over the frame.
    ChecksumMismatch { expected: u8, actual: u8 },
}

/// Header, minimal size and announced length all check out: what remains is
/// the checksum.
pub open spec fn frame_complete_spec(buf: Seq<u8>) -> bool {
    &&& buf.len() >= 6
    &&& buf[0] == 0xFF
    &&& buf[1] == 0xFF
    &&& buf.len() >= 4 + buf[3]
}

/// A complete frame whose length byte is 0 or 1: it announces less than the
/// error byte and the checksum, and has no data range to cut out.
pub open spec fn declares_short_length(buf: Seq<u8>) -> bool {
    frame_complete_spec(buf) && buf[3] < 2
}

/// What `parse_response` makes of `buf`: `(id, error, data)` or why not.
pub open spec fn parse_spec(buf: Seq<u8>) -> Result<(u8, u8, Seq<u8>), ResponseError> {
    if buf.len() < 6 {
        Err(ResponseError::TooShort)
    } else if buf[0] != 0xFF || buf[1] != 0xFF {
        Err(ResponseError::BadHeader)
    } else if buf.len() < 4 + buf[3] {
        Err(ResponseError::Incomplete { expected_len: (4 + buf[3]) as usize, actual_len: buf.len() as usize })
    } else {
        let id = buf[2];
        let length = buf[3];
        let error = buf[4];
        let data = buf.subrange(5, 3 + length);
        let expected = checksum_spec(id, length, error, data);
        let actual = buf[3 + length];
        if expected != actual {
            Err(ResponseError::ChecksumMismatch { expected, actual })
        } else {
            Ok((id, error, data))
        }
    }
}

/// A parse result with its data taken by view.
pub open spec fn response_view(r: Result<(u8, u8, Vec<u8>), ResponseError>) -> Result<
    (u8, u8, Seq<u8>),
    ResponseError,
> {
    match r {
        Ok((id, error, data)) => Ok((id, error, data@)),
        Err(e) => Err(e),
    }
}

/// Tells whether `buf` is a complete frame with a length byte below 2, on
/// which `parse_response` has no data range to cut out.
pub fn frame_declares_short_length(buf: &[u8]) -> (b: bool)
    ensures
        b == declares_short_length(buf@),
{
    buf.len() >= 6 && buf[0] == 0xFF && buf[1] == 0xFF && buf.len() >= 4 + buf[3] as usize
        && buf[3] < 2
}

/// Parses a reply frame into `(id, error, data)`. Bytes after the frame
/// are ignored.
pub fn parse_response(buf: &[u8]) -> (r: Result<(u8, u8, Vec<u8>), ResponseError>)
    requires
        !declares_short_length(buf@),
    ensures
        response_view(r) == parse_spec(buf@),
{
    if buf.len() < 6 {
        return Err(ResponseError::TooShort);
    }
    if buf[0] != 0xFF || buf[1] != 0xFF {
        return Err(ResponseError::BadHeader);
    }
    let id = buf[2];
    let length = buf[3] as usize;
    if buf.len() < 4 + length {
        return Err(ResponseError::Incomplete { expected_len: 4 + length, actual_len: buf.len() });
    }
    let error = buf[4];
    let data = slice_to_vec(slice_subrange(buf, 5, 3 + length));
    let expected_checksum = calc_checksum(id, length as u8, error, data.as_slice());
    let actual_checksum = buf[3 + length];
    if expected_checksum != actual_checksum {
        return Err(
            ResponseError::ChecksumMismatch { expected: expected_checksum, actual: actual_checksum },
        );
    }
    Ok((id, error, data))
}


/// The byte sum of a concatenation is the sum of the byte sums.
pub proof fn lemma_byte_sum_concat(a: Seq<u8>, b: Seq<u8>)
    ensures
        byte_sum(a + b) == byte_sum(a) + byte_sum(b),
    decreases b.len(),
{
    if b.len() == 0 {
        assert(a + b =~= a);
    } else {
        lemma_byte_sum_concat(a, b.drop_last());
        assert((a + b).drop_last() =~= a + b.drop_last());
    }
}

/// Replacing one byte changes the byte sum by the difference of the bytes.
pub proof fn lemma_byte_sum_update(s: Seq<u8>, k: int, x: u8)
    requires
        0 <= k < s.len(),
    ensures
        byte_sum(s.update(k, x)) == byte_sum(s) - s[k] + x,
    decreases s.len(),
{
    if k == s.len() - 1 {
        assert(s.update(k, x).drop_last() =~= s.drop_last());
    } else {
        lemma_byte_sum_update(s.drop_last(), k, x);
        assert(s.update(k, x).drop_last() =~= s.drop_last().update(k, x));
    }
}

/// The checksum closes a frame: the bytes from the id through the checksum
/// add up to 255 modulo 256.
pub proof fn lemma_checksum_closes_sum(id: u8, length: u8, instruction: u8, params: Seq<u8>)
    ensures
        (id + length + instruction + byte_sum(params) + checksum_spec(id, length, instruction, params))
            % 256 == 255,
{
    let t = id + length + instruction + byte_sum(params);
    assert(0 <= t % 256 < 256);
    assert((t + (255 - t % 256)) % 256 == 255) by (nonlinear_arith)
        requires
            0 <= t % 256 < 256,
    {
        assert(t == 256 * (t / 256) + t % 256);
        assert(t + (255 - t % 256) == 256 * (t / 256) + 255);
    }
}

/// A frame with at most 253 parameters is `params.len() + 6` bytes long: the
/// header `0xFF 0xFF`, the id, the length byte `params.len() + 2`, the
/// instruction, every parameter in order, and a last byte that brings the sum
/// of the bytes from the id on to 255 modulo 256.
pub proof fn lemma_packet_shape(id: u8, instruction: u8, params: Seq<u8>)
    requires
        params.len() <= 253,
    ensures
        ({
            let f = packet_spec(id, instruction, params);
            let n = params.len() as int;
            &&& f.len() == n + 6
            &&& f[0] == 0xFF && f[1] == 0xFF
            &&& f[2] == id
            &&& f[3] == n + 2
            &&& f[4] == instruction
            &&& forall|k: int| 0 <= k < n ==> #[trigger] f[5 + k] == params[k]
            &&& (id + (n + 2) + instruction + byte_sum(params) + f[n + 5]) % 256 == 255
        }),
{
    let n = params.len() as int;
    lemma_checksum_closes_sum(id, length_byte(params.len()), instruction, params);
}

/// A WRITE or REG WRITE frame of at most 252 data bytes carries them all:
/// it is `data.len() + 7` bytes long, byte 4 is the instruction, byte 5 the
/// start address and bytes `6 .. 6 + data.len()` the data, in order.
pub proof fn lemma_write_frame(id: u8, instruction: u8, start_addr: u8, data: Seq<u8>)
    requires
        data.len() <= 252,
    ensures
        ({
            let f = packet_spec(id, instruction, write_params(start_addr, data));
            let n = data.len() as int;
            &&& f.len() == n + 7
            &&& f[2] == id
            &&& f[3] == n + 3
            &&& f[4] == instruction
            &&& f[5] == start_addr
            &&& forall|k: int| 0 <= k < n ==> #[trigger] f[6 + k] == data[k]
            &&& f.subrange(6, 6 + n) == data
        }),
{
    let params = write_params(start_addr, data);
    let n = data.len() as int;
    assert(params.len() == n + 1);
    assert(params[0] == start_addr);
    assert(forall|k: int| 0 <= k < n ==> #[trigger] params[1 + k] == data[k]);
    lemma_packet_shape(id, instruction, params);
    let f = packet_spec(id, instruction, params);
    assert forall|k: int| 0 <= k < n implies #[trigger] f[6 + k] == data[k] by {
        assert(f[5 + (1 + k)] == params[1 + k]);
    }
    assert(f[5 + 0int] == params[0]);
    assert(f.subrange(6, 6 + n) =~= data);
}

/// A READ frame is 8 bytes: header, id, length 4, the READ instruction, the
/// start address and the count of bytes to read, then the checksum.
pub proof fn lemma_read_frame(id: u8, start_addr: u8, read_len: u8)
    ensures
        ({
            let f = packet_spec(id, INST_READ, seq![start_addr, read_len]);
            &&& f.len() == 8
            &&& f[2] == id
            &&& f[3] == 4
            &&& f[4] == INST_READ
            &&& f[5] == start_addr
            &&& f[6] == read_len
        }),
{
    lemma_packet_shape(id, INST_READ, seq![start_addr, read_len]);
    let f = packet_spec(id, INST_READ, seq![start_addr, read_len]);
    assert(f[5 + 0int] == start_addr);
    assert(f[5 + 1int] == read_len);
}

/// What a parse gives, read off the bytes: fewer than 6 bytes are too short;
/// a first or second byte other than `0xFF` is a bad header; an incomplete
/// frame reports the `4 + length` bytes it announces and the bytes present; a
/// checksum mismatch reports the last byte of the frame as the actual
/// checksum and, as the expected one, the byte that brings the sum from the
/// id on to 255 modulo 256; a frame that parses gives its id, its error
/// byte and the bytes between them and the checksum, and its bytes from the
/// id through the checksum add up to 255 modulo 256.
pub proof fn lemma_parse_outcomes(buf: Seq<u8>)
    requires
        !declares_short_length(buf),
    ensures
        buf.len() < 6 ==> parse_spec(buf) == Err::<(u8, u8, Seq<u8>), ResponseError>(ResponseError::TooShort),
        buf.len() >= 6 && (buf[0] != 0xFF || buf[1] != 0xFF) ==> parse_spec(buf) == Err::<(u8, u8, Seq<u8>), ResponseError>(ResponseError::BadHeader),
        parse_spec(buf) matches Err(ResponseError::Incomplete { expected_len, actual_len }) ==> {
            &&& expected_len == 4 + buf[3]
            &&& actual_len == buf.len()
            &&& actual_len < expected_len
        },
        parse_spec(buf) matches Err(ResponseError::ChecksumMismatch { expected, actual }) ==> {
            &&& buf.len() >= 4 + buf[3]
            &&& actual == buf[3 + buf[3]]
            &&& expected != actual
            &&& (buf[2] + buf[3] + buf[4] + byte_sum(buf.subrange(5, 3 + buf[3])) + expected) % 256
                == 255
        },
        parse_spec(buf) matches Ok((id, error, data)) ==> {
            &&& buf.len() >= 4 + buf[3]
            &&& id == buf[2]
            &&& error == buf[4]
            &&& data.len() + 2 == buf[3]
            &&& forall|k: int| 0 <= k < data.len() ==> #[trigger] data[k] == buf[5 + k]
            &&& (buf[2] + buf[3] + buf[4] + byte_sum(data) + buf[3 + buf[3]]) % 256 == 255
        },
{
    if buf.len() >= 6 && buf[0] == 0xFF && buf[1] == 0xFF && buf.len() >= 4 + buf[3] {
        let data = buf.subrange(5, 3 + buf[3]);
        lemma_checksum_closes_sum(buf[2], buf[3], buf[4], data);
    }
}

/// What `build_packet` frames, `parse_response` reads back: the frame of
/// `instruction` and at most 253 parameters, followed by any bytes, parses to
/// `(id, instruction, params)`.
pub proof fn lemma_parse_built_frame(id: u8, instruction: u8, params: Seq<u8>, rest: Seq<u8>)
    requires
        params.len() <= 253,
    ensures
        !declares_short_length(packet_spec(id, instruction, params) + rest),
        parse_spec(packet_spec(id, instruction, params) + rest) == Ok::<(u8, u8, Seq<u8>), ResponseError>((id, instruction, params)),
{
    let p = packet_spec(id, instruction, params);
    let buf = p + rest;
    let n = params.len() as int;
    assert(buf[3] == n + 2);
    assert(buf.subrange(5, 5 + n as int) =~= params);
    assert(buf[5 + n] == checksum_spec(id, length_byte(params.len()), instruction, params));
}

/// A frame that parses is exactly the frame that `build_packet` would make
/// of its id, error byte and data; the bytes after it play no part.
pub proof fn lemma_parsed_frame_is_built(buf: Seq<u8>)
    requires
        !declares_short_length(buf),
        parse_spec(buf) is Ok,
    ensures
        ({
            let (id, error, data) = parse_spec(buf)->Ok_0;
            &&& data.len() <= 253
            &&& buf.take(data.len() + 6int) == packet_spec(id, error, data)
            &&& forall|rest: Seq<u8>| #[trigger] parse_spec(buf.take(data.len() + 6int) + rest) == parse_spec(buf)
        }),
{
    let (id, error, data) = parse_spec(buf)->Ok_0;
    let n = data.len() as int;
    assert(data =~= buf.subrange(5, 3 + buf[3]));
    assert(n == buf[3] - 2);
    assert(buf.take(n + 6) =~= packet_spec(id, error, data));
    assert forall|rest: Seq<u8>| #[trigger] parse_spec(buf.take(n + 6) + rest) == parse_spec(buf) by {
        lemma_parse_built_frame(id, error, data, rest);
    }
}

/// Changing any one byte of a frame's id, error byte or data to another value
/// makes the checksum check fail.
pub proof fn lemma_corruption_detected(id: u8, instruction: u8, params: Seq<u8>, k: int, x: u8)
    requires
        params.len() <= 253,
        k == 2 || 4 <= k < 5 + params.len(),
        x != packet_spec(id, instruction, params)[k],
    ensures
        parse_spec(packet_spec(id, instruction, params).update(k, x)) is Err,
        parse_spec(packet_spec(id, instruction, params).update(k, x)) matches Err(
            ResponseError::ChecksumMismatch { .. },
        ),
{
    let p = packet_spec(id, instruction, params);
    let q = p.update(k, x);
    let n = params.len() as int;
    let length = length_byte(params.len());
    lemma_checksum_closes_sum(id, length, instruction, params);
    assert(q.len() == n + 6);
    assert(q[3] == n + 2);
    let data = q.subrange(5, 5 + n as int);
    let c = checksum_spec(id, length, instruction, params);
    assert(q[5 + n] == c);
    if k == 2 {
        assert(data =~= params);
        assert(checksum_spec(x, length, instruction, data) != c);
    } else if k == 4 {
        assert(data =~= params);
        assert(checksum_spec(id, length, x, data) != c);
    } else {
        assert(data =~= params.update(k - 5, x));
        lemma_byte_sum_update(params, k - 5, x);
        assert(checksum_spec(id, length, instruction, data) != c);
    }
}

} // verus!
