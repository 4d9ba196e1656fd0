#![allow(non_camel_case_types, non_snake_case)]

use vstd::prelude::*;
use crate::error::Error;
use crate::line::{BaudRate, ByteSize, Parity, StopBits};

verus! {

/// Number of bytes in the native form of a device control block.
pub const DCB_LEN: usize = 28;

/// A field of two bits.
#[derive(Debug, Clone, Copy, PartialEq, Eq, Structural)]
pub struct i2 {
    pub lo: bool,
    pub hi: bool,
}

/// A field of seventeen bits: sixteen low bits and one high bit.
#[derive(Debug, Clone, Copy, PartialEq, Eq, Structural)]
pub struct i17 {
    pub a: i16,
    pub b: bool,
}

/// The device control block: the line configuration of a serial device as
/// the operating system keeps it.
///
/// The native form is 28 bytes long. Numbers are stored with their low byte
/// first. The fields from `fBinary` to `fDummy2` share bytes 8 to 11, one
/// bit for each `bool`, from the lowest bit of byte 8 upwards.
#[derive(Debug, Clone, Copy, PartialEq, Eq, Structural)]
pub struct DCB {
    pub DCBlength: u32,
    pub BaudRate: u32,
    pub fBinary: bool,
    pub fParity: bool,
    pub fOutxCtsFlow: bool,
    pub fOutxDsrFlow: bool,
    pub fDtrControl: i2,
    pub fDsrSensitivity: bool,
    pub fTXContinueOnXoff: bool,
    pub fOutX: bool,
    pub fInX: bool,
    pub fErrorChar: bool,
    pub fNull: bool,
    pub fRtsControl: i2,
    pub fAbortOnError: bool,
    pub fDummy2: i17,
    pub wReserved: u16,
    pub XonLim: u16,
    pub XoffLim: u16,
    pub ByteSize: u8,
    pub Parity: u8,
    pub StopBits: u8,
    pub XonChar: i8,
    pub XoffChar: i8,
    pub ErrorChar: i8,
    pub EofChar: i8,
    pub EvtChar: i8,
    pub wReserved1: u16,
}

/// One for a set bit, zero for a clear one.
pub open spec fn bit(b: bool) -> int {
    if b {
        1
    } else {
        0
    }
}

/// The byte whose bits, from the lowest up, are the eight given.
#[verifier::opaque]
pub open spec fn pack8(b0: bool, b1: bool, b2: bool, b3: bool, b4: bool, b5: bool, b6: bool, b7: bool) -> int {
    bit(b0) + 2 * bit(b1) + 4 * bit(b2) + 8 * bit(b3) + 16 * bit(b4) + 32 * bit(b5) + 64 * bit(b6)
        + 128 * bit(b7)
}

/// Whether the bit of `byte` with the value `weight`, a power of two, is
/// set.
#[verifier::opaque]
pub open spec fn has_bit(byte: int, weight: int) -> bool {
    (byte / weight) % 2 == 1
}

/// The byte of `x` whose lowest bit has the value `weight`: 1 for the lowest
/// byte, 256 for the next, and so on.
#[verifier::opaque]
pub open spec fn byte(x: int, weight: int) -> u8 {
    ((x / weight) % 256) as u8
}

/// The number whose bytes, low byte first, are the two given.
#[verifier::opaque]
pub open spec fn join16(b0: u8, b1: u8) -> u16 {
    (b0 + 256 * b1) as u16
}

/// The number whose bytes, low byte first, are the four given.
#[verifier::opaque]
pub open spec fn join32(b0: u8, b1: u8, b2: u8, b3: u8) -> u32 {
    (b0 + 256 * b1 + 65536 * b2 + 16777216 * b3) as u32
}

/// The unsigned value of the eight bits of `c`.
pub open spec fn raw8(c: i8) -> u8 {
    if c >= 0 {
        c as u8
    } else {
        (c + 256) as u8
    }
}

/// The signed value of the eight bits of `byte`.
pub open spec fn signed8(byte: u8) -> i8 {
    if byte < 128 {
        byte as i8
    } else {
        (byte - 256) as i8
    }
}

impl i17 {
    /// The field as a number of seventeen bits: the bits of `a`, and above
    /// them `b`.
    #[verifier::opaque]
    pub open spec fn value(self) -> int {
        (if self.a >= 0 {
            self.a as int
        } else {
            self.a + 65536
        }) + 65536 * bit(self.b)
    }

    /// The field that a number of seventeen bits stands for.
    #[verifier::opaque]
    pub open spec fn from_value(v: int) -> i17 {
        i17 {
            a: if v % 65536 < 32768 {
                (v % 65536) as i16
            } else {
                (v % 65536 - 65536) as i16
            },
            b: v >= 65536,
        }
    }
}

impl DCB {
    /// The block with every bit clear.
    pub open spec fn zero() -> DCB {
        DCB {
            DCBlength: 0,
            BaudRate: 0,
            fBinary: false,
            fParity: false,
            fOutxCtsFlow: false,
            fOutxDsrFlow: false,
            fDtrControl: i2 { lo: false, hi: false },
            fDsrSensitivity: false,
            fTXContinueOnXoff: false,
            fOutX: false,
            fInX: false,
            fErrorChar: false,
            fNull: false,
            fRtsControl: i2 { lo: false, hi: false },
            fAbortOnError: false,
            fDummy2: i17 { a: 0, b: false },
            wReserved: 0,
            XonLim: 0,
            XoffLim: 0,
            ByteSize: 0,
            Parity: 0,
            StopBits: 0,
            XonChar: 0,
            XoffChar: 0,
            ErrorChar: 0,
            EofChar: 0,
            EvtChar: 0,
            wReserved1: 0,
        }
    }

    /// The native form of the block: its 28 bytes in the order and at the
    /// offsets that the operating system gives them.
    pub open spec fn layout(self) -> Seq<u8> {
        seq![
            // 0: DCBlength
            byte(self.DCBlength as int, 1),
            byte(self.DCBlength as int, 256),
            byte(self.DCBlength as int, 65536),
            byte(self.DCBlength as int, 16777216),
            // 4: BaudRate
            byte(self.BaudRate as int, 1),
            byte(self.BaudRate as int, 256),
            byte(self.BaudRate as int, 65536),
            byte(self.BaudRate as int, 16777216),
            // 8: fBinary to fTXContinueOnXoff
            pack8(
                self.fBinary,
                self.fParity,
                self.fOutxCtsFlow,
                self.fOutxDsrFlow,
                self.fDtrControl.lo,
                self.fDtrControl.hi,
                self.fDsrSensitivity,
                self.fTXContinueOnXoff,
            ) as u8,
            // 9: fOutX to fAbortOnError, and the lowest bit of fDummy2
            pack8(
                self.fOutX,
                self.fInX,
                self.fErrorChar,
                self.fNull,
                self.fRtsControl.lo,
                self.fRtsControl.hi,
                self.fAbortOnError,
                has_bit(self.fDummy2.value(), 1),
            ) as u8,
            // 10: the next eight bits of fDummy2
            byte(self.fDummy2.value(), 2),
            // 11: the last eight bits of fDummy2
            byte(self.fDummy2.value(), 512),
            // 12: wReserved
            byte(self.wReserved as int, 1),
            byte(self.wReserved as int, 256),
            // 14: XonLim
            byte(self.XonLim as int, 1),
            byte(self.XonLim as int, 256),
            // 16: XoffLim
            byte(self.XoffLim as int, 1),
            byte(self.XoffLim as int, 256),
            // 18: ByteSize, Parity, StopBits
            self.ByteSize,
            self.Parity,
            self.StopBits,
            // 21: XonChar, XoffChar, ErrorChar, EofChar, EvtChar
            raw8(self.XonChar),
            raw8(self.XoffChar),
            raw8(self.ErrorChar),
            raw8(self.EofChar),
            raw8(self.EvtChar),
            // 26: wReserved1
            byte(self.wReserved1 as int, 1),
            byte(self.wReserved1 as int, 256),
        ]
    }

    /// The block that 28 bytes in native form stand for.
    pub open spec fn parse(bytes: Seq<u8>) -> DCB {
        DCB {
            DCBlength: join32(bytes[0], bytes[1], bytes[2], bytes[3]),
            BaudRate: join32(bytes[4], bytes[5], bytes[6], bytes[7]),
            fBinary: has_bit(bytes[8] as int, 1),
            fParity: has_bit(bytes[8] as int, 2),
            fOutxCtsFlow: has_bit(bytes[8] as int, 4),
            fOutxDsrFlow: has_bit(bytes[8] as int, 8),
            fDtrControl: i2 { lo: has_bit(bytes[8] as int, 16), hi: has_bit(bytes[8] as int, 32) },
            fDsrSensitivity: has_bit(bytes[8] as int, 64),
            fTXContinueOnXoff: has_bit(bytes[8] as int, 128),
            fOutX: has_bit(bytes[9] as int, 1),
            fInX: has_bit(bytes[9] as int, 2),
            fErrorChar: has_bit(bytes[9] as int, 4),
            fNull: has_bit(bytes[9] as int, 8),
            fRtsControl: i2 { lo: has_bit(bytes[9] as int, 16), hi: has_bit(bytes[9] as int, 32) },
            fAbortOnError: has_bit(bytes[9] as int, 64),
            fDummy2: i17::from_value(
                bit(has_bit(bytes[9] as int, 128)) + 2 * bytes[10] + 512 * bytes[11],
            ),
            wReserved: join16(bytes[12], bytes[13]),
            XonLim: join16(bytes[14], bytes[15]),
            XoffLim: join16(bytes[16], bytes[17]),
            ByteSize: bytes[18],
            Parity: bytes[19],
            StopBits: bytes[20],
            XonChar: signed8(bytes[21]),
            XoffChar: signed8(bytes[22]),
            ErrorChar: signed8(bytes[23]),
            EofChar: signed8(bytes[24]),
            EvtChar: signed8(bytes[25]),
            wReserved1: join16(bytes[26], bytes[27]),
        }
    }

    /// The block with the baud rate replaced and nothing else changed.
    pub open spec fn with_baud_rate(self, baud_rate: BaudRate) -> DCB {
        DCB { BaudRate: baud_rate.bps() as u32, ..self }
    }

    /// The block with the byte size replaced and nothing else changed.
    pub open spec fn with_byte_size(self, byte_size: ByteSize) -> DCB {
        DCB { ByteSize: byte_size.width() as u8, ..self }
    }

    /// The block with the parity mode replaced and nothing else changed.
    pub open spec fn with_parity(self, parity: Parity) -> DCB {
        DCB { Parity: parity.native() as u8, ..self }
    }

    /// The block with the stop bit count replaced and nothing else changed.
    pub open spec fn with_stop_bits(self, stop_bits: StopBits) -> DCB {
        DCB { StopBits: stop_bits.native() as u8, ..self }
    }

    /// A block with every bit clear, as it must be before the operating
    /// system fills it in.
    pub fn zeroed() -> (d: DCB)
        ensures
            d == DCB::zero(),
            d.layout() == Seq::new(28, |i: int| 0u8),
    {
        let d = DCB {
            DCBlength: 0,
            BaudRate: 0,
            fBinary: false,
            fParity: false,
            fOutxCtsFlow: false,
            fOutxDsrFlow: false,
            fDtrControl: i2 { lo: false, hi: false },
            fDsrSensitivity: false,
            fTXContinueOnXoff: false,
            fOutX: false,
            fInX: false,
            fErrorChar: false,
            fNull: false,
            fRtsControl: i2 { lo: false, hi: false },
            fAbortOnError: false,
            fDummy2: i17 { a: 0, b: false },
            wReserved: 0,
            XonLim: 0,
            XoffLim: 0,
            ByteSize: 0,
            Parity: 0,
            StopBits: 0,
            XonChar: 0,
            XoffChar: 0,
            ErrorChar: 0,
            EofChar: 0,
            EvtChar: 0,
            wReserved1: 0,
        };
        proof {
            lemma_zero_bytes();
            assert(d.layout() =~= Seq::new(28, |i: int| 0u8));
        }
        d
    }

    /// Writes the block in its native form.
    pub fn to_bytes(&self) -> (out: [u8; 28])
        ensures
            out@ == self.layout(),
    {
        let v = field_value(&self.fDummy2);
        let out = [
            nth_byte(self.DCBlength, 1),
            nth_byte(self.DCBlength, 256),
            nth_byte(self.DCBlength, 65536),
            nth_byte(self.DCBlength, 16777216),
            nth_byte(self.BaudRate, 1),
            nth_byte(self.BaudRate, 256),
            nth_byte(self.BaudRate, 65536),
            nth_byte(self.BaudRate, 16777216),
            pack(
                self.fBinary,
                self.fParity,
                self.fOutxCtsFlow,
                self.fOutxDsrFlow,
                self.fDtrControl.lo,
                self.fDtrControl.hi,
                self.fDsrSensitivity,
                self.fTXContinueOnXoff,
            ),
            pack(
                self.fOutX,
                self.fInX,
                self.fErrorChar,
                self.fNull,
                self.fRtsControl.lo,
                self.fRtsControl.hi,
                self.fAbortOnError,
                test_bit(v, 1),
            ),
            nth_byte(v, 2),
            nth_byte(v, 512),
            nth_byte(self.wReserved as u32, 1),
            nth_byte(self.wReserved as u32, 256),
            nth_byte(self.XonLim as u32, 1),
            nth_byte(self.XonLim as u32, 256),
            nth_byte(self.XoffLim as u32, 1),
            nth_byte(self.XoffLim as u32, 256),
            self.ByteSize,
            self.Parity,
            self.StopBits,
            low8(self.XonChar),
            low8(self.XoffChar),
            low8(self.ErrorChar),
            low8(self.EofChar),
            low8(self.EvtChar),
            nth_byte(self.wReserved1 as u32, 1),
            nth_byte(self.wReserved1 as u32, 256),
        ];
        assert(out@ =~= self.layout());
        out
    }

    /// Reads a block from its native form. There is a block for every 28
    /// bytes, and for no other number of bytes.
    pub fn from_bytes(bytes: &[u8]) -> (res: Option<DCB>)
        ensures
            bytes@.len() == DCB_LEN ==> res == Some(DCB::parse(bytes@)),
            bytes@.len() != DCB_LEN ==> res is None,
    {
        if bytes.len() != DCB_LEN {
            return None;
        }
        let top: u32 = if test_bit(bytes[9] as u32, 128) {
            1
        } else {
            0
        };
        let v: u32 = top + 2 * (bytes[10] as u32) + 512 * (bytes[11] as u32);
        Some(
            DCB {
                DCBlength: join4(bytes[0], bytes[1], bytes[2], bytes[3]),
                BaudRate: join4(bytes[4], bytes[5], bytes[6], bytes[7]),
                fBinary: test_bit(bytes[8] as u32, 1),
                fParity: test_bit(bytes[8] as u32, 2),
                fOutxCtsFlow: test_bit(bytes[8] as u32, 4),
                fOutxDsrFlow: test_bit(bytes[8] as u32, 8),
                fDtrControl: i2 { lo: test_bit(bytes[8] as u32, 16), hi: test_bit(bytes[8] as u32, 32) },
                fDsrSensitivity: test_bit(bytes[8] as u32, 64),
                fTXContinueOnXoff: test_bit(bytes[8] as u32, 128),
                fOutX: test_bit(bytes[9] as u32, 1),
                fInX: test_bit(bytes[9] as u32, 2),
                fErrorChar: test_bit(bytes[9] as u32, 4),
                fNull: test_bit(bytes[9] as u32, 8),
                fRtsControl: i2 { lo: test_bit(bytes[9] as u32, 16), hi: test_bit(bytes[9] as u32, 32) },
                fAbortOnError: test_bit(bytes[9] as u32, 64),
                fDummy2: field_from(v),
                wReserved: join2(bytes[12], bytes[13]),
                XonLim: join2(bytes[14], bytes[15]),
                XoffLim: join2(bytes[16], bytes[17]),
                ByteSize: bytes[18],
                Parity: bytes[19],
                StopBits: bytes[20],
                XonChar: high8(bytes[21]),
                XoffChar: high8(bytes[22]),
                ErrorChar: high8(bytes[23]),
                EofChar: high8(bytes[24]),
                EvtChar: high8(bytes[25]),
                wReserved1: join2(bytes[26], bytes[27]),
            },
        )
    }

    /// The baud rate in the block, or `UnexpectedValue` where the block
    /// holds a number that is no rate.
    pub fn baud_rate(&self) -> (res: Result<BaudRate, Error>)
        ensures
            res == BaudRate::decode(self.BaudRate as int),
    {
        BaudRate::from_bits_per_second(self.BaudRate)
    }

    /// Replaces the baud rate. No other field changes.
    pub fn set_baud_rate(&mut self, baud_rate: BaudRate)
        ensures
            *final(self) == old(self).with_baud_rate(baud_rate),
    {
        self.BaudRate = baud_rate.bits_per_second();
    }

    /// The byte size in the block, or `UnexpectedValue` where the block
    /// holds a number that is no size.
    pub fn byte_size(&self) -> (res: Result<ByteSize, Error>)
        ensures
            res == ByteSize::decode(self.ByteSize as int),
    {
        ByteSize::from_bits(self.ByteSize)
    }

    /// Replaces the byte size. No other field changes.
    pub fn set_byte_size(&mut self, byte_size: ByteSize)
        ensures
            *final(self) == old(self).with_byte_size(byte_size),
    {
        self.ByteSize = byte_size.bits();
    }

    /// The parity mode in the block, or `UnexpectedValue` where the block
    /// holds a number that is no mode.
    pub fn parity(&self) -> (res: Result<Parity, Error>)
        ensures
            res == Parity::decode(self.Parity as int),
    {
        Parity::from_code(self.Parity)
    }

    /// Replaces the parity mode. No other field changes.
    pub fn set_parity(&mut self, parity: Parity)
        ensures
            *final(self) == old(self).with_parity(parity),
    {
        self.Parity = parity.code();
    }

    /// The stop bit count in the block, or `UnexpectedValue` where the
    /// block holds a number that is no count.
    pub fn stop_bits(&self) -> (res: Result<StopBits, Error>)
        ensures
            res == StopBits::decode(self.StopBits as int),
    {
        StopBits::from_code(self.StopBits)
    }

    /// Replaces the stop bit count. No other field changes.
    pub fn set_stop_bits(&mut self, stop_bits: StopBits)
        ensures
            *final(self) == old(self).with_stop_bits(stop_bits),
    {
        self.StopBits = stop_bits.code();
    }

    /// The native form has 28 bytes and stands for the block it was made
    /// from: no field is lost or moved on the way out and back.
    pub proof fn lemma_parse_layout(d: DCB)
        ensures
            d.layout().len() == 28,
            DCB::parse(d.layout()) == d,
    {
        lemma_numbers_kept(d);
        lemma_low_flags_kept(d);
        lemma_high_flags_kept(d);
        lemma_chars_kept(d);
    }

    /// Every 28 bytes are the native form of the block they stand for: no
    /// bit of the native form goes unread.
    pub proof fn lemma_layout_parse(bytes: Seq<u8>)
        requires
            bytes.len() == 28,
        ensures
            DCB::parse(bytes).layout() == bytes,
    {
        let d = DCB::parse(bytes);
        let out = d.layout();
        lemma_bytes_of_number(bytes[0], bytes[1], bytes[2], bytes[3]);
        lemma_bytes_of_number(bytes[4], bytes[5], bytes[6], bytes[7]);
        lemma_bytes_of_short(bytes[12], bytes[13]);
        lemma_bytes_of_short(bytes[14], bytes[15]);
        lemma_bytes_of_short(bytes[16], bytes[17]);
        lemma_bytes_of_short(bytes[26], bytes[27]);
        lemma_pack_of_bits(bytes[8]);
        lemma_pack_of_bits(bytes[9]);
        lemma_value_of_field(has_bit(bytes[9] as int, 128), bytes[10], bytes[11]);
        assert(out[8] == bytes[8]);
        assert(out[9] == bytes[9]);
        assert(out[10] == bytes[10]);
        assert(out[11] == bytes[11]);
        assert(out =~= bytes);
    }

    /// A setting that was put into a block is the setting that is read
    /// from it, also after the block went through its native form.
    pub proof fn lemma_set_then_get(d: DCB, baud_rate: BaudRate, byte_size: ByteSize, parity: Parity, stop_bits: StopBits)
        ensures
            BaudRate::decode(DCB::parse(d.with_baud_rate(baud_rate).layout()).BaudRate as int) == Ok::<BaudRate, Error>(baud_rate),
            ByteSize::decode(DCB::parse(d.with_byte_size(byte_size).layout()).ByteSize as int) == Ok::<ByteSize, Error>(byte_size),
            Parity::decode(DCB::parse(d.with_parity(parity).layout()).Parity as int) == Ok::<Parity, Error>(parity),
            StopBits::decode(DCB::parse(d.with_stop_bits(stop_bits).layout()).StopBits as int) == Ok::<StopBits, Error>(stop_bits),
    {
        DCB::lemma_parse_layout(d.with_baud_rate(baud_rate));
        DCB::lemma_parse_layout(d.with_byte_size(byte_size));
        DCB::lemma_parse_layout(d.with_parity(parity));
        DCB::lemma_parse_layout(d.with_stop_bits(stop_bits));
        BaudRate::lemma_round_trip(baud_rate);
        ByteSize::lemma_round_trip(byte_size);
        Parity::lemma_round_trip(parity);
        StopBits::lemma_round_trip(stop_bits);
    }
}

/// The numbers of a block can be read again from its native form.
proof fn lemma_numbers_kept(d: DCB)
    ensures
        ({
            let p = DCB::parse(d.layout());
            &&& d.layout().len() == 28
            &&& p.DCBlength == d.DCBlength
            &&& p.BaudRate == d.BaudRate
            &&& p.wReserved == d.wReserved
            &&& p.XonLim == d.XonLim
            &&& p.XoffLim == d.XoffLim
            &&& p.ByteSize == d.ByteSize
            &&& p.Parity == d.Parity
            &&& p.StopBits == d.StopBits
            &&& p.wReserved1 == d.wReserved1
        }),
{
    lemma_number_of_bytes(d.DCBlength);
    lemma_number_of_bytes(d.BaudRate);
    lemma_number_of_bytes(d.wReserved as u32);
    lemma_number_of_bytes(d.XonLim as u32);
    lemma_number_of_bytes(d.XoffLim as u32);
    lemma_number_of_bytes(d.wReserved1 as u32);
}

/// The flags in byte 8 of the native form can be read again from it.
proof fn lemma_low_flags_kept(d: DCB)
    ensures
        ({
            let p = DCB::parse(d.layout());
            &&& p.fBinary == d.fBinary
            &&& p.fParity == d.fParity
            &&& p.fOutxCtsFlow == d.fOutxCtsFlow
            &&& p.fOutxDsrFlow == d.fOutxDsrFlow
            &&& p.fDtrControl == d.fDtrControl
            &&& p.fDsrSensitivity == d.fDsrSensitivity
            &&& p.fTXContinueOnXoff == d.fTXContinueOnXoff
        }),
{
    lemma_bits_of_pack(
        d.fBinary,
        d.fParity,
        d.fOutxCtsFlow,
        d.fOutxDsrFlow,
        d.fDtrControl.lo,
        d.fDtrControl.hi,
        d.fDsrSensitivity,
        d.fTXContinueOnXoff,
    );
}

/// The flags in bytes 9 to 11 of the native form can be read again from
/// it.
proof fn lemma_high_flags_kept(d: DCB)
    ensures
        ({
            let p = DCB::parse(d.layout());
            &&& p.fOutX == d.fOutX
            &&& p.fInX == d.fInX
            &&& p.fErrorChar == d.fErrorChar
            &&& p.fNull == d.fNull
            &&& p.fRtsControl == d.fRtsControl
            &&& p.fAbortOnError == d.fAbortOnError
            &&& p.fDummy2 == d.fDummy2
        }),
{
    lemma_bits_of_pack(
        d.fOutX,
        d.fInX,
        d.fErrorChar,
        d.fNull,
        d.fRtsControl.lo,
        d.fRtsControl.hi,
        d.fAbortOnError,
        has_bit(d.fDummy2.value(), 1),
    );
    lemma_field_of_value(d.fDummy2);
}

/// The characters of a block can be read again from its native form.
proof fn lemma_chars_kept(d: DCB)
    ensures
        ({
            let p = DCB::parse(d.layout());
            &&& p.XonChar == d.XonChar
            &&& p.XoffChar == d.XoffChar
            &&& p.ErrorChar == d.ErrorChar
            &&& p.EofChar == d.EofChar
            &&& p.EvtChar == d.EvtChar
        }),
{
}

/// Every byte of zero is zero, and zero has no bit set.
proof fn lemma_zero_bytes()
    ensures
        byte(0, 1) == 0,
        byte(0, 2) == 0,
        byte(0, 256) == 0,
        byte(0, 512) == 0,
        byte(0, 65536) == 0,
        byte(0, 16777216) == 0,
        pack8(false, false, false, false, false, false, false, false) == 0,
        !has_bit(0, 1),
        (i17 { a: 0, b: false }).value() == 0,
{
    reveal(byte);
    reveal(pack8);
    reveal(has_bit);
    reveal(i17::value);
}

/// A byte is made of its eight bits.
proof fn lemma_pack_of_bits(x: u8)
    ensures
        pack8(
            has_bit(x as int, 1),
            has_bit(x as int, 2),
            has_bit(x as int, 4),
            has_bit(x as int, 8),
            has_bit(x as int, 16),
            has_bit(x as int, 32),
            has_bit(x as int, 64),
            has_bit(x as int, 128),
        ) == x,
{
    reveal(pack8);
    reveal(has_bit);
    let q1 = x as int / 2;
    let q2 = q1 / 2;
    let q3 = q2 / 2;
    let q4 = q3 / 2;
    let q5 = q4 / 2;
    let q6 = q5 / 2;
    let q7 = q6 / 2;
    assert(q2 == x as int / 4);
    assert(q3 == x as int / 8);
    assert(q4 == x as int / 16);
    assert(q5 == x as int / 32);
    assert(q6 == x as int / 64);
    assert(q7 == x as int / 128);
}

/// Eight bits make a byte, from which each of them can be read again.
proof fn lemma_bits_of_pack(b0: bool, b1: bool, b2: bool, b3: bool, b4: bool, b5: bool, b6: bool, b7: bool)
    ensures
        ({
            let x = pack8(b0, b1, b2, b3, b4, b5, b6, b7);
            &&& 0 <= x < 256
            &&& has_bit(x, 1) == b0
            &&& has_bit(x, 2) == b1
            &&& has_bit(x, 4) == b2
            &&& has_bit(x, 8) == b3
            &&& has_bit(x, 16) == b4
            &&& has_bit(x, 32) == b5
            &&& has_bit(x, 64) == b6
            &&& has_bit(x, 128) == b7
        }),
{
    let x = pack8(b0, b1, b2, b3, b4, b5, b6, b7);
    assert(0 <= x < 256) by {
        reveal(pack8);
    }
    lemma_pack_of_bits(x as u8);
    reveal(pack8);
}

/// A number of 32 bits is made of its four bytes; where it has 16 bits, of
/// its two low bytes.
proof fn lemma_number_of_bytes(x: u32)
    ensures
        join32(byte(x as int, 1), byte(x as int, 256), byte(x as int, 65536), byte(x as int, 16777216)) == x,
        x < 65536 ==> join16(byte(x as int, 1), byte(x as int, 256)) == x,
{
    reveal(byte);
    reveal(join32);
    reveal(join16);
    let q1 = x as int / 256;
    let q2 = q1 / 256;
    let q3 = q2 / 256;
    assert(q2 == x as int / 65536);
    assert(q3 == x as int / 16777216);
}

/// Each of the four bytes put into a number can be read from it again.
proof fn lemma_bytes_of_number(b0: u8, b1: u8, b2: u8, b3: u8)
    ensures
        ({
            let x = join32(b0, b1, b2, b3) as int;
            &&& byte(x, 1) == b0
            &&& byte(x, 256) == b1
            &&& byte(x, 65536) == b2
            &&& byte(x, 16777216) == b3
        }),
{
    reveal(byte);
    reveal(join32);
    let x = join32(b0, b1, b2, b3) as int;
    assert(x == b0 + 256 * (b1 + 256 * (b2 + 256 * b3)));
    let q1 = x / 256;
    let q2 = q1 / 256;
    let q3 = q2 / 256;
    assert(q1 == b1 + 256 * (b2 + 256 * b3));
    assert(q2 == b2 + 256 * b3);
    assert(q3 == b3);
    assert(q2 == x / 65536);
    assert(q3 == x / 16777216);
}

/// Each of the two bytes put into a number can be read from it again.
proof fn lemma_bytes_of_short(b0: u8, b1: u8)
    ensures
        ({
            let x = join16(b0, b1) as int;
            &&& byte(x, 1) == b0
            &&& byte(x, 256) == b1
        }),
{
    reveal(byte);
    reveal(join16);
}

/// A field of seventeen bits can be read again from the bit and the two
/// bytes that it is stored in.
proof fn lemma_field_of_value(f: i17)
    ensures
        ({
            let v = f.value();
            i17::from_value(bit(has_bit(v, 1)) + 2 * byte(v, 2) + 512 * byte(v, 512)) == f
        }),
{
    reveal(i17::value);
    reveal(i17::from_value);
    reveal(has_bit);
    reveal(byte);
    let v = f.value();
    assert(0 <= v < 131072);
    let q1 = v / 2;
    let q9 = q1 / 256;
    assert(q9 == v / 512);
    assert(bit(has_bit(v, 1)) + 2 * byte(v, 2) + 512 * byte(v, 512) == v);
}

/// The bit and the two bytes that a field of seventeen bits is read from
/// are the ones that it is stored in.
proof fn lemma_value_of_field(top: bool, b10: u8, b11: u8)
    ensures
        ({
            let v = i17::from_value(bit(top) + 2 * b10 + 512 * b11).value();
            &&& has_bit(v, 1) == top
            &&& byte(v, 2) == b10
            &&& byte(v, 512) == b11
        }),
{
    reveal(i17::value);
    reveal(i17::from_value);
    reveal(has_bit);
    reveal(byte);
    let w = bit(top) + 2 * b10 + 512 * b11;
    let v = i17::from_value(w).value();
    assert(v == w);
    let q1 = w / 2;
    assert(q1 == b10 + 256 * b11);
    let q9 = q1 / 256;
    assert(q9 == b11);
    assert(q9 == w / 512);
}

fn pack(b0: bool, b1: bool, b2: bool, b3: bool, b4: bool, b5: bool, b6: bool, b7: bool) -> (r: u8)
    ensures
        r == pack8(b0, b1, b2, b3, b4, b5, b6, b7),
{
    proof {
        reveal(pack8);
    }
    let mut r: u8 = 0;
    if b0 {
        r = r + 1;
    }
    if b1 {
        r = r + 2;
    }
    if b2 {
        r = r + 4;
    }
    if b3 {
        r = r + 8;
    }
    if b4 {
        r = r + 16;
    }
    if b5 {
        r = r + 32;
    }
    if b6 {
        r = r + 64;
    }
    if b7 {
        r = r + 128;
    }
    r
}

fn test_bit(x: u32, weight: u32) -> (r: bool)
    requires
        weight > 0,
    ensures
        r == has_bit(x as int, weight as int),
{
    proof {
        reveal(has_bit);
    }
    (x / weight) % 2 == 1
}

fn nth_byte(x: u32, weight: u32) -> (r: u8)
    requires
        weight > 0,
    ensures
        r == byte(x as int, weight as int),
{
    proof {
        reveal(byte);
    }
    ((x / weight) % 256) as u8
}

fn low8(c: i8) -> (r: u8)
    ensures
        r == raw8(c),
{
    if c >= 0 {
        c as u8
    } else {
        (c as i16 + 256) as u8
    }
}

fn high8(byte: u8) -> (c: i8)
    ensures
        c == signed8(byte),
{
    if byte < 128 {
        byte as i8
    } else {
        (byte as i16 - 256) as i8
    }
}

fn field_value(f: &i17) -> (v: u32)
    ensures
        v == f.value(),
        v < 131072,
{
    proof {
        reveal(i17::value);
    }
    let low: u32 = if f.a >= 0 {
        f.a as u32
    } else {
        (f.a as i32 + 65536) as u32
    };
    if f.b {
        low + 65536
    } else {
        low
    }
}

fn field_from(v: u32) -> (f: i17)
    ensures
        f == i17::from_value(v as int),
{
    proof {
        reveal(i17::from_value);
    }
    let low = v % 65536;
    i17 {
        a: if low < 32768 {
            low as i16
        } else {
            (low as i32 - 65536) as i16
        },
        b: v >= 65536,
    }
}

fn join2(b0: u8, b1: u8) -> (x: u16)
    ensures
        x == join16(b0, b1),
{
    proof {
        reveal(join16);
    }
    b0 as u16 + 256 * (b1 as u16)
}

fn join4(b0: u8, b1: u8, b2: u8, b3: u8) -> (x: u32)
    ensures
        x == join32(b0, b1, b2, b3),
{
    proof {
        reveal(join32);
    }
    b0 as u32 + 256 * (b1 as u32) + 65536 * (b2 as u32) + 16777216 * (b3 as u32)
}

} // verus!
