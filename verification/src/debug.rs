//! The telemetry stream.
//!
//! The main loop logs 16-bit values under channel ids, inside a critical
//! section. The transmitter's interrupt sends them as a repeating frame: for every channel its id, the low byte
//! and the high byte of its last value, and after the last channel three
//! bytes 0xFF that mark the end of the frame.
//!
//! The receiving side finds the end mark in the byte stream and then
//! reads the stream in records of three bytes.

use vstd::prelude::*;
use crate::context::CriticalSection;
use crate::context::IrqCtx;
use crate::fixpt::Fixpt;

verus! {

/// Number of telemetry channels.
pub const NRVALUES: usize = 9;

/// Number of bytes of a frame: three for each channel and three for the
/// end mark.
pub const FRAME_LEN: u8 = 30;

/// A telemetry channel.
#[derive(Copy, Clone, Debug, PartialEq, Eq, Structural)]
pub enum Debug {
    Speedo,
    SpeedoStatus,
    Setpoint,
    PidY,
    MonDebounce,
    TempMot,
    TempUc,
    MinStack,
    MaxRt,
}

/// The id of a channel.
pub open spec fn debug_id(chan: Debug) -> int {
    match chan {
        Debug::Speedo => 0,
        Debug::SpeedoStatus => 1,
        Debug::Setpoint => 2,
        Debug::PidY => 3,
        Debug::MonDebounce => 4,
        Debug::TempMot => 5,
        Debug::TempUc => 6,
        Debug::MinStack => 7,
        Debug::MaxRt => 8,
    }
}

/// The byte at position `pos` of the frame that carries `values`.
pub open spec fn frame_byte(values: Seq<u16>, pos: int) -> int {
    let id = pos / 3;
    if id >= values.len() {
        0xFF
    } else if pos % 3 == 0 {
        id
    } else if pos % 3 == 1 {
        values[id] as int % 0x100
    } else {
        values[id] as int / 0x100
    }
}

/// The logged values and the position of the transmitter in the frame.
pub struct DebugLog {
    values: [u16; 9],
    /// The channel in the upper bits, the byte of its record in the two
    /// lowest bits.
    index: u8,
}

impl DebugLog {
    /// The last value of each channel.
    pub closed spec fn values(&self) -> Seq<u16> {
        self.values@
    }

    /// The position in the frame of the byte that is sent next.
    pub closed spec fn pos(&self) -> int {
        (self.index / 4) * 3 + self.index % 4
    }

    /// Whether the state is well formed: the position lies in the frame.
    pub closed spec fn wf(&self) -> bool {
        &&& self.values@.len() == NRVALUES
        &&& self.index / 4 <= NRVALUES
        &&& self.index % 4 <= 2
    }

    pub fn new() -> (r: Self)
        ensures
            r.wf(),
            r.pos() == 0,
            r.values() =~= Seq::new(NRVALUES as nat, |k: int| 0u16),
    {
        DebugLog { values: [0, 0, 0, 0, 0, 0, 0, 0, 0], index: 0 }
    }

    /// The last value logged under a channel.
    pub fn value(&self, chan: Debug) -> (r: u16)
        requires
            self.wf(),
        ensures
            r == self.values()[debug_id(chan)],
    {
        self.values[chan.id() as usize]
    }
}

impl Debug {
    /// The id of the channel.
    pub fn id(&self) -> (r: u8)
        ensures
            r == debug_id(*self),
            r < NRVALUES,
    {
        match self {
            Debug::Speedo => 0,
            Debug::SpeedoStatus => 1,
            Debug::Setpoint => 2,
            Debug::PidY => 3,
            Debug::MonDebounce => 4,
            Debug::TempMot => 5,
            Debug::TempUc => 6,
            Debug::MinStack => 7,
            Debug::MaxRt => 8,
        }
    }

    /// Logs a value under the channel.
    pub fn log_u16(&self, cs: &CriticalSection, log: &mut DebugLog, value: u16)
        requires
            old(log).wf(),
        ensures
            final(log).wf(),
            final(log).values() == old(log).values().update(debug_id(*self), value),
            final(log).pos() == old(log).pos(),
    {
        log.values[self.id() as usize] = value;
    }

    /// Logs a byte under the channel.
    pub fn log_u8(&self, cs: &CriticalSection, log: &mut DebugLog, value: u8)
        requires
            old(log).wf(),
        ensures
            final(log).wf(),
            final(log).values() == old(log).values().update(debug_id(*self), value as u16),
            final(log).pos() == old(log).pos(),
    {
        self.log_u16(cs, log, value as u16)
    }

    /// Logs the raw value of a number under the channel, as its 16 bits in
    /// two's complement.
    pub fn log_fixpt(&self, cs: &CriticalSection, log: &mut DebugLog, value: Fixpt)
        requires
            old(log).wf(),
        ensures
            final(log).wf(),
            final(log).values() == old(log).values().update(
                debug_id(*self),
                (value@ % 0x1_0000) as u16,
            ),
            final(log).pos() == old(log).pos(),
    {
        let q: i16 = value.to_q();
        let bits: u16 = if q < 0 {
            (q as i32 + 0x1_0000) as u16
        } else {
            q as u16
        };
        proof {
            crate::wrap::lemma_mod_fold(q as int, 0x1_0000);
        }
        self.log_u16(cs, log, bits)
    }
}

/// The transmitter's interrupt: it is ready for a byte. With `tx_free` the next byte of
/// the frame is handed out and the position moves on, from the end of the
/// frame to its start; without, nothing happens.
pub fn tx_complete_callback(c: &IrqCtx, log: &mut DebugLog, tx_free: bool) -> (r: Option<u8>)
    requires
        old(log).wf(),
    ensures
        final(log).wf(),
        final(log).values() == old(log).values(),
        0 <= old(log).pos() < FRAME_LEN,
        tx_free ==> r.is_some() && r.unwrap() == frame_byte(old(log).values(), old(log).pos())
            && final(log).pos() == (old(log).pos() + 1) % (FRAME_LEN as int),
        !tx_free ==> r.is_none() && final(log).pos() == old(log).pos(),
{
    if !tx_free {
        return None;
    }
    let index = log.index;
    let id: u8 = index / 4;
    let txindex: u8 = index % 4;
    let value: u16 = if (id as usize) < NRVALUES {
        log.values[id as usize]
    } else {
        0xFFFF
    };
    if txindex == 0 {
        let data: u8 = if (id as usize) < NRVALUES {
            id
        } else {
            0xFF
        };
        log.index = index + 1;
        Some(data)
    } else if txindex == 1 {
        log.index = index + 1;
        Some((value % 0x100) as u8)
    } else {
        if id as usize >= NRVALUES {
            log.index = 0;
        } else {
            log.index = (id + 1) * 4;
        }
        Some((value / 0x100) as u8)
    }
}

/// The byte with the bits of `data` in reverse order.
pub open spec fn bit_rev_value(data: u8) -> u8 {
    ((data & 0x01) << 7) | ((data & 0x02) << 5) | ((data & 0x04) << 3) | ((data & 0x08) << 1) | ((data
        & 0x10) >> 1) | ((data & 0x20) >> 3) | ((data & 0x40) >> 5) | ((data & 0x80) >> 7)
}

/// Reverses the order of the bits of a byte. The transmitter shifts bytes
/// out with the high bit first, the line wants the low bit first.
pub fn bit_rev(data: u8) -> (r: u8)
    ensures
        r == bit_rev_value(data),
{
    let a: u8 = (data & 0xF0) >> 4 | (data & 0x0F) << 4;
    let b: u8 = (a & 0xCC) >> 2 | (a & 0x33) << 2;
    let c: u8 = (b & 0xAA) >> 1 | (b & 0x55) << 1;
    assert(c == ((data & 0x01) << 7) | ((data & 0x02) << 5) | ((data & 0x04) << 3) | ((data & 0x08)
        << 1) | ((data & 0x10) >> 1) | ((data & 0x20) >> 3) | ((data & 0x40) >> 5) | ((data & 0x80)
        >> 7)) by (bit_vector)
        requires
            a == (data & 0xF0) >> 4 | (data & 0x0F) << 4,
            b == (a & 0xCC) >> 2 | (a & 0x33) << 2,
            c == (b & 0xAA) >> 1 | (b & 0x55) << 1,
    ;
    c
}

/// Reversing the bits twice gives the byte back.
pub proof fn lemma_bit_rev_involution(data: u8)
    ensures
        bit_rev_value(bit_rev_value(data)) == data,
{
    let r = bit_rev_value(data);
    assert(((r & 0x01) << 7) | ((r & 0x02) << 5) | ((r & 0x04) << 3) | ((r & 0x08) << 1) | ((r & 0x10)
        >> 1) | ((r & 0x20) >> 3) | ((r & 0x40) >> 5) | ((r & 0x80) >> 7) == data) by (bit_vector)
        requires
            r == ((data & 0x01) << 7) | ((data & 0x02) << 5) | ((data & 0x04) << 3) | ((data & 0x08)
                << 1) | ((data & 0x10) >> 1) | ((data & 0x20) >> 3) | ((data & 0x40) >> 5) | ((data
                & 0x80) >> 7),
    ;
}

/// A frame is the records of all channels in the order of their ids,
/// followed by the end mark of three bytes 0xFF.
pub proof fn lemma_frame_layout(values: Seq<u16>, chan: int)
    requires
        values.len() == NRVALUES,
        0 <= chan < NRVALUES,
    ensures
        frame_byte(values, 3 * chan) == chan,
        frame_byte(values, 3 * chan + 1) + 0x100 * frame_byte(values, 3 * chan + 2)
            == values[chan],
        frame_byte(values, 27) == 0xFF,
        frame_byte(values, 28) == 0xFF,
        frame_byte(values, 29) == 0xFF,
{
}

/// The channel with the id `id`, if there is one.
pub open spec fn debug_chan(id: int) -> Option<Debug> {
    if id == 0 {
        Some(Debug::Speedo)
    } else if id == 1 {
        Some(Debug::SpeedoStatus)
    } else if id == 2 {
        Some(Debug::Setpoint)
    } else if id == 3 {
        Some(Debug::PidY)
    } else if id == 4 {
        Some(Debug::MonDebounce)
    } else if id == 5 {
        Some(Debug::TempMot)
    } else if id == 6 {
        Some(Debug::TempUc)
    } else if id == 7 {
        Some(Debug::MinStack)
    } else if id == 8 {
        Some(Debug::MaxRt)
    } else {
        None
    }
}

/// A record of the stream as the receiver reads it.
#[derive(Copy, Clone, Debug, PartialEq, Eq, Structural)]
pub enum SerDat {
    /// The value of a channel.
    Value(Debug, u16),
    /// The end mark of a frame.
    Sync,
}

/// Why a record cannot be read.
#[derive(Copy, Clone, Debug, PartialEq, Eq, Structural)]
pub enum ParseError {
    /// The first byte is neither a channel id nor the end mark.
    UnknownCommand(u8),
}

/// What a record of three bytes says: the first byte is the channel id or
/// 0xFF for the end mark, the other two are the value, low byte first.
pub open spec fn parse_value(buf: Seq<u8>) -> Result<SerDat, ParseError> {
    if buf[0] == 0xFF {
        Ok(SerDat::Sync)
    } else {
        match debug_chan(buf[0] as int) {
            Some(chan) => Ok(SerDat::Value(chan, (buf[1] as int + 0x100 * buf[2] as int) as u16)),
            None => Err(ParseError::UnknownCommand(buf[0])),
        }
    }
}

impl SerDat {
    /// Reads a record of three bytes.
    pub fn parse(buf: &[u8; 3]) -> (r: Result<SerDat, ParseError>)
        ensures
            r == parse_value(buf@),
    {
        let val: u16 = buf[1] as u16 + 0x100 * (buf[2] as u16);
        let chan = match buf[0] {
            0 => Debug::Speedo,
            1 => Debug::SpeedoStatus,
            2 => Debug::Setpoint,
            3 => Debug::PidY,
            4 => Debug::MonDebounce,
            5 => Debug::TempMot,
            6 => Debug::TempUc,
            7 => Debug::MinStack,
            8 => Debug::MaxRt,
            0xFF => {
                return Ok(SerDat::Sync);
            },
            cmd => {
                return Err(ParseError::UnknownCommand(cmd));
            },
        };
        Ok(SerDat::Value(chan, val))
    }
}

impl ParseError {
    /// The error in words.
    pub fn message(&self) -> (r: &'static str)
        ensures
            r@ == "unknown command"@,
    {
        match self {
            ParseError::UnknownCommand(_) => "unknown command",
        }
    }
}

/// The receiver reads back what the transmitter has sent: the record of
/// each channel gives the channel and its value, and the end mark gives
/// the end mark.
pub proof fn lemma_frame_round_trip(values: Seq<u16>, chan: Debug)
    requires
        values.len() == NRVALUES,
    ensures
        ({
            let p = 3 * debug_id(chan);
            parse_value(
                seq![
                    frame_byte(values, p) as u8,
                    frame_byte(values, p + 1) as u8,
                    frame_byte(values, p + 2) as u8,
                ],
            ) == Ok::<SerDat, ParseError>(SerDat::Value(chan, values[debug_id(chan)]))
        }),
        parse_value(
            seq![
                frame_byte(values, 27) as u8,
                frame_byte(values, 28) as u8,
                frame_byte(values, 29) as u8,
            ],
        ) == Ok::<SerDat, ParseError>(SerDat::Sync),
{
}

/// Number of windows without an end mark after which the search for the
/// end mark gives up.
pub const SYNC_TRIES: u8 = 128;

/// The state of the search for the end mark.
#[derive(Copy, Clone, Debug, PartialEq, Eq, Structural)]
pub enum SyncState {
    /// The end mark has not been seen.
    Searching,
    /// The last three bytes were the end mark: the next byte begins a
    /// record.
    Synchronized,
    /// Too many bytes without an end mark.
    Failed,
}

/// The search for the end mark of a frame in a stream of bytes.
pub struct Synchronizer {
    /// The last bytes read, oldest first; `len` of them count.
    window: [u8; 3],
    len: u8,
    /// Windows of three bytes that were no end mark.
    count: u8,
}

impl Synchronizer {
    /// The bytes of the window, oldest first.
    pub closed spec fn window(&self) -> Seq<u8> {
        self.window@.subrange(0, self.len as int)
    }

    /// Windows of three bytes that were no end mark.
    pub closed spec fn count(&self) -> int {
        self.count as int
    }

    /// Whether the state is well formed: the window is not full.
    pub closed spec fn wf(&self) -> bool {
        &&& self.len <= 2
        &&& self.count <= SYNC_TRIES + 1
    }

    pub fn new() -> (r: Self)
        ensures
            r.wf(),
            r.window().len() == 0,
            r.count() == 0,
    {
        Synchronizer { window: [0, 0, 0], len: 0, count: 0 }
    }

    /// Whether the search has given up: a byte may be pushed only while it
    /// has not.
    pub fn failed(&self) -> (r: bool)
        ensures
            r == (self.count() > SYNC_TRIES),
    {
        self.count > SYNC_TRIES
    }

    /// Takes the next byte of the stream. With two bytes in the window,
    /// the three bytes are the end mark or the oldest byte leaves the
    /// window and the window counts as a miss.
    pub fn push(&mut self, byte: u8) -> (r: SyncState)
        requires
            old(self).wf(),
            old(self).count() <= SYNC_TRIES,
        ensures
            final(self).wf(),
            old(self).window().len() < 2 ==> {
                &&& r == SyncState::Searching
                &&& final(self).window() == old(self).window().push(byte)
                &&& final(self).count() == old(self).count()
            },
            old(self).window().len() == 2 ==> {
                let full = old(self).window().push(byte);
                let mark = full[0] == 0xFF && full[1] == 0xFF && full[2] == 0xFF;
                &&& r == if mark {
                    SyncState::Synchronized
                } else if old(self).count() + 1 > SYNC_TRIES {
                    SyncState::Failed
                } else {
                    SyncState::Searching
                }
                &&& final(self).window() == if mark {
                    Seq::<u8>::empty()
                } else {
                    full.drop_first()
                }
                &&& final(self).count() == if mark {
                    0
                } else {
                    old(self).count() + 1
                }
            },
    {
        if self.len < 2 {
            self.window[self.len as usize] = byte;
            self.len = self.len + 1;
            assert(self.window() =~= old(self).window().push(byte));
            SyncState::Searching
        } else {
            let ghost full = self.window().push(byte);
            if self.window[0] == 0xFF && self.window[1] == 0xFF && byte == 0xFF {
                self.len = 0;
                self.count = 0;
                assert(self.window() =~= Seq::<u8>::empty());
                SyncState::Synchronized
            } else {
                self.window[0] = self.window[1];
                self.window[1] = byte;
                self.count = self.count + 1;
                assert(self.window() =~= full.drop_first());
                if self.count > SYNC_TRIES {
                    SyncState::Failed
                } else {
                    SyncState::Searching
                }
            }
        }
    }
}

} // verus!
