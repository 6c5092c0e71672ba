//! The decisions of the host's servo commands: when a reply is complete,
//! how a status block decodes, which requests a move sends, what a register
//! read yields. The serial port itself is driven by the caller.
use vstd::prelude::*;
use vstd::slice::slice_to_vec;
use vstd::string::*;
use crate::servo_protocol::{
    build_read, build_write, frame_complete_spec, lemma_parse_built_frame, lemma_write_frame, packet_spec, parse_response, parse_spec,
    declares_short_length, write_params, ResponseError, ADDR_ACCELERATION, ADDR_TARGET_POSITION,
    ADDR_TORQUE_SWITCH, INST_READ, INST_WRITE,
};
use crate::registers::{get_register_table, register_table_spec, table_view, RegisterInfo};

verus! {

/// Tells whether `response` holds a whole frame: at least 6 bytes, the
/// `0xFF 0xFF` header, and as many bytes as its length byte announces.
pub fn frame_complete(response: &[u8]) -> (b: bool)
    ensures
        b == frame_complete_spec(response@),
{
    response.len() >= 6 && response[0] == 0xFF && response[1] == 0xFF && response.len() >= 4
        + response[3] as usize
}

/// A buffer that `frame_complete` accepts is one that `parse_response` takes
/// as far as the checksum: it parses, or fails on the checksum alone.
pub proof fn lemma_complete_frame_reaches_checksum(buf: Seq<u8>)
    ensures
        frame_complete_spec(buf) <==> (parse_spec(buf) is Ok || parse_spec(buf) matches Err(
            ResponseError::ChecksumMismatch { .. },
        )),
{
}

/// A frame built with at most 253 parameters, whatever bytes follow it, is
/// complete: a reply that arrives as such a frame stops the reading.
pub proof fn lemma_built_frame_complete(id: u8, instruction: u8, params: Seq<u8>, rest: Seq<u8>)
    requires
        params.len() <= 253,
    ensures
        frame_complete_spec(packet_spec(id, instruction, params) + rest),
{
    lemma_parse_built_frame(id, instruction, params, rest);
}

/// What one read from the serial port gave.
pub enum ReadEvent {
    /// Bytes arrived; none at all means the port reported end of data.
    Read(Vec<u8>),
    /// The read timed out.
    TimedOut,
    /// The read failed for another reason.
    Failed,
}

/// What to do after a read.
#[derive(Debug, Clone, Copy, PartialEq, Eq, Structural)]
pub enum ReceiveStep {
    /// Read again (while the reply deadline has not passed).
    Continue,
    /// Stop reading; the reply is what has been collected.
    Stop,
    /// Stop reading and report the read error.
    Abort,
}

/// Collects the bytes of one reply, read by read.
pub struct ResponseCollector {
    received: Vec<u8>,
}

impl View for ResponseCollector {
    type V = Seq<u8>;

    closed spec fn view(&self) -> Seq<u8> {
        self.received@
    }
}

impl ResponseCollector {
    /// A collector that has received nothing yet.
    pub fn new() -> (c: Self)
        ensures
            c@ == Seq::<u8>::empty(),
    {
        ResponseCollector { received: Vec::new() }
    }

    /// The bytes received so far.
    pub fn received(&self) -> (r: &[u8])
        ensures
            r@ == self@,
    {
        self.received.as_slice()
    }

    /// Takes in one read: arriving bytes are appended, and reading stops once
    /// the bytes form a whole frame, or the port reports end of data, or a
    /// time-out comes after some bytes; any other read error aborts.
    pub fn feed(&mut self, event: ReadEvent) -> (step: ReceiveStep)
        ensures
            match event {
                ReadEvent::Read(bytes) => {
                    &&& final(self)@ == old(self)@ + bytes@
                    &&& step == if bytes@.len() == 0 || frame_complete_spec(final(self)@) {
                        ReceiveStep::Stop
                    } else {
                        ReceiveStep::Continue
                    }
                },
                ReadEvent::TimedOut => {
                    &&& final(self)@ == old(self)@
                    &&& step == if old(self)@.len() > 0 {
                        ReceiveStep::Stop
                    } else {
                        ReceiveStep::Continue
                    }
                },
                ReadEvent::Failed => {
                    &&& final(self)@ == old(self)@
                    &&& step == ReceiveStep::Abort
                },
            },
    {
        match event {
            ReadEvent::Read(bytes) => {
                if bytes.len() == 0 {
                    proof {
                        assert(self.received@ + bytes@ =~= self.received@);
                    }
                    return ReceiveStep::Stop;
                }
                let mut bytes = bytes;
                self.received.append(&mut bytes);
                if frame_complete(self.received.as_slice()) {
                    ReceiveStep::Stop
                } else {
                    ReceiveStep::Continue
                }
            },
            ReadEvent::TimedOut => {
                if self.received.len() > 0 {
                    ReceiveStep::Stop
                } else {
                    ReceiveStep::Continue
                }
            },
            ReadEvent::Failed => ReceiveStep::Abort,
        }
    }

    /// The reply, or `None` when no byte arrived.
    pub fn into_response(self) -> (r: Option<Vec<u8>>)
        ensures
            self@.len() == 0 ==> r is None,
            self@.len() > 0 ==> r is Some && r->0@ == self@,
    {
        if self.received.len() == 0 {
            None
        } else {
            Some(self.received)
        }
    }
}

/// The value of two bytes, low byte first, as an unsigned 16-bit number.
pub open spec fn le_u16(lo: u8, hi: u8) -> u16 {
    (lo + 256 * hi) as u16
}

/// The value of two bytes, low byte first, as a two's complement 16-bit
/// number.
pub open spec fn le_i16(lo: u8, hi: u8) -> i16 {
    let v = lo + 256 * hi;
    (if v >= 32768 {
        v - 65536
    } else {
        v
    }) as i16
}

/// The two bytes, low byte first, of `v` in two's complement.
pub open spec fn i16_le_bytes(v: i16) -> Seq<u8> {
    let u: int = if v < 0 {
        v + 65536
    } else {
        v as int
    };
    seq![(u % 256) as u8, (u / 256) as u8]
}

/// The two bytes, low byte first, of `v`.
pub open spec fn u16_le_bytes(v: u16) -> Seq<u8> {
    seq![(v % 256) as u8, (v / 256) as u8]
}

fn read_le_u16(lo: u8, hi: u8) -> (v: u16)
    ensures
        v == le_u16(lo, hi),
{
    lo as u16 + hi as u16 * 256
}

fn read_le_i16(lo: u8, hi: u8) -> (v: i16)
    ensures
        v == le_i16(lo, hi),
{
    let raw = read_le_u16(lo, hi);
    if raw >= 32768 {
        (raw as i32 - 65536) as i16
    } else {
        raw as i16
    }
}

/// The number of bytes of the status block read from the present position
/// on: position, speed, load (2 each), voltage, temperature, async write
/// flag, status, moving flag (1 each), 2 unused, current (2).
pub const STATUS_BLOCK_LEN: u8 = 15;

/// The live state of a servo, as the status block gives it.
#[derive(Debug, Clone, Copy, PartialEq, Eq, Structural)]
pub struct StatusReading {
    /// Steps.
    pub position: i16,
    /// Steps per second.
    pub speed: i16,
    /// Per mille of the maximum torque.
    pub load: i16,
    /// In units of 0.1 V.
    pub voltage: u8,
    /// Degrees Celsius.
    pub temperature: u8,
    /// In units of 6.5 mA.
    pub current: u16,
    pub moving: bool,
    /// The error byte of the reply.
    pub error: u8,
}

/// Why a status block could not be decoded.
#[derive(Debug, Clone, Copy, PartialEq, Eq, Structural)]
pub enum StatusError {
    /// The reply carried fewer than `STATUS_BLOCK_LEN` data bytes.
    Incomplete { received: usize },
}

/// The reading that a status block of at least 15 bytes gives.
pub open spec fn status_spec(error: u8, data: Seq<u8>) -> StatusReading {
    StatusReading {
        position: le_i16(data[0], data[1]),
        speed: le_i16(data[2], data[3]),
        load: le_i16(data[4], data[5]),
        voltage: data[6],
        temperature: data[7],
        current: le_u16(data[13], data[14]),
        moving: data[10] != 0,
        error,
    }
}

/// Decodes the status block of a reply with error byte `error`.
pub fn decode_status(error: u8, data: &[u8]) -> (r: Result<StatusReading, StatusError>)
    ensures
        data@.len() < 15 ==> r == Err::<StatusReading, StatusError>(
            StatusError::Incomplete { received: data@.len() as usize },
        ),
        data@.len() >= 15 ==> r == Ok::<StatusReading, StatusError>(status_spec(error, data@)),
{
    if data.len() < 15 {
        return Err(StatusError::Incomplete { received: data.len() });
    }
    Ok(
        StatusReading {
            position: read_le_i16(data[0], data[1]),
            speed: read_le_i16(data[2], data[3]),
            load: read_le_i16(data[4], data[5]),
            voltage: data[6],
            temperature: data[7],
            current: read_le_u16(data[13], data[14]),
            moving: data[10] != 0,
            error,
        },
    )
}

/// Every field of a decoded status block is read from its own bytes: the
/// position, speed and load are the little-endian two's complement values of
/// bytes 0-1, 2-3 and 4-5; the voltage and temperature are bytes 6 and 7; the
/// moving flag is byte 10 being non-zero; the current is the little-endian
/// unsigned value of bytes 13-14.
pub proof fn lemma_status_fields(error: u8, data: Seq<u8>)
    requires
        data.len() >= 15,
    ensures
        ({
            let r = status_spec(error, data);
            let pos = data[0] + 256 * data[1];
            let spd = data[2] + 256 * data[3];
            let ld = data[4] + 256 * data[5];
            &&& r.position == pos - (if pos >= 32768 { 65536int } else { 0int })
            &&& r.speed == spd - (if spd >= 32768 { 65536int } else { 0int })
            &&& r.load == ld - (if ld >= 32768 { 65536int } else { 0int })
            &&& r.voltage == data[6]
            &&& r.temperature == data[7]
            &&& r.moving == (data[10] != 0)
            &&& r.current == data[13] + 256 * data[14]
            &&& r.error == error
        }),
{
}

/// The data written at the target position: position (2 bytes), running
/// time 0 (2 bytes), speed (2 bytes), each low byte first.
pub open spec fn move_data_spec(position: i16, speed: u16) -> Seq<u8> {
    i16_le_bytes(position) + seq![0u8, 0u8] + u16_le_bytes(speed)
}

/// The requests of a move, in order: torque on; the acceleration, when it is
/// not 0; then position, running time and speed.
pub open spec fn move_packets_spec(id: u8, position: i16, speed: u16, acceleration: u8) -> Seq<
    Seq<u8>,
> {
    let torque = packet_spec(id, INST_WRITE, write_params(ADDR_TORQUE_SWITCH, seq![1u8]));
    let target = packet_spec(
        id,
        INST_WRITE,
        write_params(ADDR_TARGET_POSITION, move_data_spec(position, speed)),
    );
    if acceleration > 0 {
        seq![
            torque,
            packet_spec(id, INST_WRITE, write_params(ADDR_ACCELERATION, seq![acceleration])),
            target,
        ]
    } else {
        seq![torque, target]
    }
}

/// The views of a list of byte buffers.
pub open spec fn packets_view(packets: Seq<Vec<u8>>) -> Seq<Seq<u8>> {
    packets.map_values(|p: Vec<u8>| p@)
}

/// The requests that move servo `id` to `position` at `speed`, each to be
/// sent and answered in turn.
pub fn move_packets(id: u8, position: i16, speed: u16, acceleration: u8) -> (packets: Vec<Vec<u8>>)
    ensures
        packets_view(packets@) == move_packets_spec(id, position, speed, acceleration),
{
    let torque_on: [u8; 1] = [1];
    let mut packets: Vec<Vec<u8>> = Vec::new();
    let torque = build_write(id, ADDR_TORQUE_SWITCH, &torque_on);
    proof {
        assert(torque_on@ =~= seq![1u8]);
    }
    packets.push(torque);
    if acceleration > 0 {
        let acc: [u8; 1] = [acceleration];
        let acc_packet = build_write(id, ADDR_ACCELERATION, &acc);
        proof {
            assert(acc@ =~= seq![acceleration]);
        }
        packets.push(acc_packet);
    }
    let unsigned: u16 = if position < 0 {
        (position as i32 + 65536) as u16
    } else {
        position as u16
    };
    let data: [u8; 6] = [
        (unsigned % 256) as u8,
        (unsigned / 256) as u8,
        0,
        0,
        (speed % 256) as u8,
        (speed / 256) as u8,
    ];
    let target = build_write(id, ADDR_TARGET_POSITION, &data);
    proof {
        assert(data@ =~= move_data_spec(position, speed));
    }
    packets.push(target);
    proof {
        assert(packets_view(packets@) =~= move_packets_spec(id, position, speed, acceleration));
    }
    packets
}

/// The data of a move is 6 bytes: the position as a 16-bit two's complement
/// number, low byte first; two zero bytes of running time; the speed, low
/// byte first.
pub proof fn lemma_move_data(position: i16, speed: u16)
    ensures
        ({
            let d = move_data_spec(position, speed);
            &&& d.len() == 6
            &&& d[0] + 256 * d[1] == (if position < 0 { position + 65536 } else { position as int })
            &&& d[2] == 0 && d[3] == 0
            &&& d[4] + 256 * d[5] == speed
        }),
{
}

/// A move sends, in order: a write of 1 to the torque switch; when the
/// acceleration is not 0, a write of it to the acceleration register; and a
/// write of 6 bytes from the target position on: the position (two's
/// complement, low byte first), running time 0 and the speed (low byte
/// first). Every request is addressed to `id`.
pub proof fn lemma_move_requests(id: u8, position: i16, speed: u16, acceleration: u8)
    ensures
        ({
            let ps = move_packets_spec(id, position, speed, acceleration);
            let last = ps[ps.len() - 1];
            &&& ps.len() == if acceleration > 0 { 3int } else { 2int }
            &&& ps[0].len() == 8 && ps[0][2] == id && ps[0][4] == INST_WRITE
            &&& ps[0][5] == ADDR_TORQUE_SWITCH && ps[0][6] == 1
            &&& acceleration > 0 ==> {
                &&& ps[1].len() == 8 && ps[1][2] == id && ps[1][4] == INST_WRITE
                &&& ps[1][5] == ADDR_ACCELERATION && ps[1][6] == acceleration
            }
            &&& last.len() == 13 && last[2] == id && last[4] == INST_WRITE
            &&& last[5] == ADDR_TARGET_POSITION
            &&& last[6] + 256 * last[7] == (if position < 0 { position + 65536 } else { position as int })
            &&& last[8] == 0 && last[9] == 0
            &&& last[10] + 256 * last[11] == speed
        }),
{
    lemma_write_frame(id, INST_WRITE, ADDR_TORQUE_SWITCH, seq![1u8]);
    lemma_write_frame(id, INST_WRITE, ADDR_ACCELERATION, seq![acceleration]);
    let d = move_data_spec(position, speed);
    lemma_move_data(position, speed);
    lemma_write_frame(id, INST_WRITE, ADDR_TARGET_POSITION, d);
    let f = packet_spec(id, INST_WRITE, write_params(ADDR_TARGET_POSITION, d));
    assert(f[6 + 0int] == d[0]);
    assert(f[6 + 1int] == d[1]);
    assert(f[6 + 2int] == d[2]);
    assert(f[6 + 3int] == d[3]);
    assert(f[6 + 4int] == d[4]);
    assert(f[6 + 5int] == d[5]);
    let t = packet_spec(id, INST_WRITE, write_params(ADDR_TORQUE_SWITCH, seq![1u8]));
    assert(t[6 + 0int] == 1u8);
    let a = packet_spec(id, INST_WRITE, write_params(ADDR_ACCELERATION, seq![acceleration]));
    assert(a[6 + 0int] == acceleration);
}

/// A position written by `move_packets` reads back unchanged by the rule
/// that `decode_status` applies to the present position.
pub proof fn lemma_position_bytes_roundtrip(position: i16)
    ensures
        le_i16(i16_le_bytes(position)[0], i16_le_bytes(position)[1]) == position,
        move_data_spec(position, 0).subrange(0, 2) == i16_le_bytes(position),
{
    assert(move_data_spec(position, 0).subrange(0, 2) =~= i16_le_bytes(position));
}

/// A 16-bit value written low byte first reads back unchanged as unsigned.
pub proof fn lemma_u16_bytes_roundtrip(v: u16)
    ensures
        le_u16(u16_le_bytes(v)[0], u16_le_bytes(v)[1]) == v,
{
}

/// Why a register read failed.
#[derive(Debug, Clone, Copy, PartialEq, Eq, Structural)]
pub enum ReplyError {
    /// The reply frame was refused.
    Frame(ResponseError),
    /// The servo answered with a non-zero error byte.
    Servo(u8),
}

/// The data of a read reply, refused when the frame is bad or the servo
/// reports an error.
pub fn read_reply_data(response: &[u8]) -> (r: Result<Vec<u8>, ReplyError>)
    requires
        !declares_short_length(response@),
    ensures
        match parse_spec(response@) {
            Ok((_, error, data)) => if error == 0 {
                r is Ok && r->Ok_0@ == data
            } else {
                r == Err::<Vec<u8>, ReplyError>(ReplyError::Servo(error))
            },
            Err(e) => r == Err::<Vec<u8>, ReplyError>(ReplyError::Frame(e)),
        },
{
    match parse_response(response) {
        Ok((_, error, data)) => {
            if error != 0 {
                Err(ReplyError::Servo(error))
            } else {
                Ok(data)
            }
        },
        Err(e) => Err(ReplyError::Frame(e)),
    }
}

/// The data that a register read yields: the data of the reply when there is
/// one and it parses (whatever its error byte), else nothing.
pub open spec fn reading_spec(reply: Option<Seq<u8>>) -> Seq<u8> {
    match reply {
        Some(r) => match parse_spec(r) {
            Ok((_, _, data)) => data,
            Err(_) => Seq::empty(),
        },
        None => Seq::empty(),
    }
}

/// A register read keeps the whole data of its reply: for a reply that is a
/// frame of at most 253 data bytes (followed by any bytes), the reading is
/// that data, whatever the id and error byte; with no reply it is empty.
pub proof fn lemma_reading_of_reply(id: u8, error: u8, data: Seq<u8>, rest: Seq<u8>)
    requires
        data.len() <= 253,
    ensures
        reading_spec(Some(packet_spec(id, error, data) + rest)) == data,
        reading_spec(None) == Seq::<u8>::empty(),
{
    lemma_parse_built_frame(id, error, data, rest);
}

/// Pairs `address` with the data of `reply`; a missing or refused reply
/// yields no data. `None` stands for an exchange that failed.
pub fn register_reading(address: u8, reply: Option<&[u8]>) -> (r: (u8, Vec<u8>))
    requires
        reply matches Some(b) ==> !declares_short_length(b@),
    ensures
        r.0 == address,
        r.1@ == reading_spec(
            match reply {
                Some(b) => Some(b@),
                None => None,
            },
        ),
{
    match reply {
        Some(response) => match parse_response(response) {
            Ok((_, _, data)) => (address, data),
            Err(_) => (address, Vec::new()),
        },
        None => (address, Vec::new()),
    }
}

/// The READ requests that read every register of the memory table of servo
/// `id`, each with the register's address, in table order.
pub fn register_read_requests(id: u8) -> (requests: Vec<(u8, Vec<u8>)>)
    ensures
        requests@.len() == register_table_spec().len(),
        forall|i: int|
            0 <= i < requests@.len() ==> (#[trigger] requests@[i]).0
                == register_table_spec()[i].address && requests@[i].1@ == packet_spec(
                id,
                INST_READ,
                seq![register_table_spec()[i].address, register_table_spec()[i].bytes],
            ),
{
    let regs = get_register_table();
    let mut requests: Vec<(u8, Vec<u8>)> = Vec::new();
    let mut i: usize = 0;
    while i < regs.len()
        invariant
            i <= regs@.len(),
            table_view(regs@) == register_table_spec(),
            requests@.len() == i,
            forall|k: int|
                0 <= k < i ==> (#[trigger] requests@[k]).0 == register_table_spec()[k].address
                    && requests@[k].1@ == packet_spec(
                    id,
                    INST_READ,
                    seq![register_table_spec()[k].address, register_table_spec()[k].bytes],
                ),
        decreases regs@.len() - i,
    {
        let reg: &RegisterInfo = &regs[i];
        proof {
            assert(table_view(regs@)[i as int] == regs@[i as int]@);
        }
        let packet = build_read(id, reg.address, reg.bytes);
        requests.push((reg.address, packet));
        i = i + 1;
    }
    proof {
        assert(regs@.len() == table_view(regs@).len());
    }
    requests
}

/// The kind of a serial port, as the port list reports it.
pub enum PortKind {
    Usb { product: Option<String> },
    Bluetooth,
    Pci,
    Unknown,
}

/// The label shown for a port of kind `kind`.
pub open spec fn port_label_spec(kind: PortKind) -> Seq<char> {
    match kind {
        PortKind::Usb { product } => "USB - "@ + match product {
            Some(p) => p@,
            None => Seq::empty(),
        },
        PortKind::Bluetooth => "Bluetooth"@,
        PortKind::Pci => "PCI"@,
        PortKind::Unknown => "Unknown"@,
    }
}

/// The label shown for a port of kind `kind`: "USB - " and the product name
/// (empty when unknown), "Bluetooth", "PCI" or "Unknown".
pub fn port_type_label(kind: &PortKind) -> (label: String)
    ensures
        label@ == port_label_spec(*kind),
{
    match kind {
        PortKind::Usb { product } => {
            let prefix = "USB - ".to_owned();
            match product {
                Some(p) => prefix.concat(p.as_str()),
                None => {
                    proof {
                        assert(prefix@ + Seq::<char>::empty() =~= prefix@);
                    }
                    prefix
                },
            }
        },
        PortKind::Bluetooth => "Bluetooth".to_owned(),
        PortKind::Pci => "PCI".to_owned(),
        PortKind::Unknown => "Unknown".to_owned(),
    }
}

} // verus!
