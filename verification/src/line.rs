use vstd::prelude::*;
use crate::error::Error;
use crate::tty::{TtyParity, TtyStopBits};

verus! {

/// The transmission rates that a connection can be set to.
#[derive(Debug, Clone, Copy, PartialEq, Eq, Structural)]
pub enum BaudRate {
    B0,
    B50,
    B75,
    B110,
    B134,
    B150,
    B200,
    B300,
    B600,
    B1200,
    B1800,
    B2400,
    B4800,
    B9600,
    B19200,
    B38400,
    B57600,
    B115200,
    B230400,
}

/// The number of data bits in one character.
#[derive(Debug, Clone, Copy, PartialEq, Eq, Structural)]
pub enum ByteSize {
    B5,
    B6,
    B7,
    B8,
}

/// How the parity bit of a character is formed.
///
/// `Mark` and `Space` exist only where the line is configured through a
/// device control block.
#[derive(Debug, Clone, Copy, PartialEq, Eq, Structural)]
pub enum Parity {
    NoParity,
    Even,
    Odd,
    Mark,
    Space,
}

/// The number of stop bits that follow a character.
///
/// `B1p5`, one and a half stop bits, exists only where the line is configured
/// through a device control block.
#[derive(Debug, Clone, Copy, PartialEq, Eq, Structural)]
pub enum StopBits {
    B1,
    B1p5,
    B2,
}

/// One line setting with the value it is to take.
#[derive(Debug, Clone, Copy, PartialEq, Eq, Structural)]
pub enum Setting {
    Rate(BaudRate),
    Size(ByteSize),
    Mode(Parity),
    Stop(StopBits),
}

impl Setting {
    /// Whether a terminal device has a value for this setting. It has one
    /// for every rate and every byte size, and for the parity modes and
    /// stop bit counts that `Parity::tty` and `StopBits::tty` give a value
    /// for.
    pub open spec fn on_tty(self) -> bool {
        match self {
            Setting::Rate(_) => true,
            Setting::Size(_) => true,
            Setting::Mode(parity) => parity.tty() is Some,
            Setting::Stop(stop_bits) => stop_bits.tty() is Some,
        }
    }
}

impl BaudRate {
    /// The rate in bits per second. This number is also the native value of
    /// the rate.
    pub open spec fn bps(self) -> int {
        match self {
            BaudRate::B0 => 0,
            BaudRate::B50 => 50,
            BaudRate::B75 => 75,
            BaudRate::B110 => 110,
            BaudRate::B134 => 134,
            BaudRate::B150 => 150,
            BaudRate::B200 => 200,
            BaudRate::B300 => 300,
            BaudRate::B600 => 600,
            BaudRate::B1200 => 1200,
            BaudRate::B1800 => 1800,
            BaudRate::B2400 => 2400,
            BaudRate::B4800 => 4800,
            BaudRate::B9600 => 9600,
            BaudRate::B19200 => 19200,
            BaudRate::B38400 => 38400,
            BaudRate::B57600 => 57600,
            BaudRate::B115200 => 115200,
            BaudRate::B230400 => 230400,
        }
    }

    /// The rate whose native value is `raw`, where there is one.
    pub open spec fn decode(raw: int) -> Result<BaudRate, Error> {
        if exists|b: BaudRate| b.bps() == raw {
            Ok(choose|b: BaudRate| b.bps() == raw)
        } else {
            Err(Error::UnexpectedValue)
        }
    }

    /// The native value of the rate.
    pub fn bits_per_second(self) -> (rate: u32)
        ensures
            rate == self.bps(),
    {
        match self {
            BaudRate::B0 => 0,
            BaudRate::B50 => 50,
            BaudRate::B75 => 75,
            BaudRate::B110 => 110,
            BaudRate::B134 => 134,
            BaudRate::B150 => 150,
            BaudRate::B200 => 200,
            BaudRate::B300 => 300,
            BaudRate::B600 => 600,
            BaudRate::B1200 => 1200,
            BaudRate::B1800 => 1800,
            BaudRate::B2400 => 2400,
            BaudRate::B4800 => 4800,
            BaudRate::B9600 => 9600,
            BaudRate::B19200 => 19200,
            BaudRate::B38400 => 38400,
            BaudRate::B57600 => 57600,
            BaudRate::B115200 => 115200,
            BaudRate::B230400 => 230400,
        }
    }

    /// Maps a native value back to its rate. A value that no rate has is
    /// reported, never rounded to a neighbour.
    pub fn from_bits_per_second(raw: u32) -> (res: Result<BaudRate, Error>)
        ensures
            res == BaudRate::decode(raw as int),
            res matches Ok(b) ==> b.bps() == raw,
            res is Err <==> forall|b: BaudRate| b.bps() != raw,
            res matches Err(e) ==> e == Error::UnexpectedValue,
    {
        let found = match raw {
            0 => Some(BaudRate::B0),
            50 => Some(BaudRate::B50),
            75 => Some(BaudRate::B75),
            110 => Some(BaudRate::B110),
            134 => Some(BaudRate::B134),
            150 => Some(BaudRate::B150),
            200 => Some(BaudRate::B200),
            300 => Some(BaudRate::B300),
            600 => Some(BaudRate::B600),
            1200 => Some(BaudRate::B1200),
            1800 => Some(BaudRate::B1800),
            2400 => Some(BaudRate::B2400),
            4800 => Some(BaudRate::B4800),
            9600 => Some(BaudRate::B9600),
            19200 => Some(BaudRate::B19200),
            38400 => Some(BaudRate::B38400),
            57600 => Some(BaudRate::B57600),
            115200 => Some(BaudRate::B115200),
            230400 => Some(BaudRate::B230400),
            _ => None,
        };
        match found {
            Some(b) => {
                proof {
                    assert(b.bps() == raw as int);
                    BaudRate::lemma_bps_injective(b, choose|c: BaudRate| c.bps() == raw as int);
                }
                Ok(b)
            },
            None => Err(Error::UnexpectedValue),
        }
    }

    /// No two rates share a native value.
    pub proof fn lemma_bps_injective(a: BaudRate, b: BaudRate)
        requires
            a.bps() == b.bps(),
        ensures
            a == b,
    {
    }

    /// Every rate survives the trip through its native value: the value that
    /// stands for `b` is decoded as `b` and as nothing else.
    pub proof fn lemma_round_trip(b: BaudRate)
        ensures
            BaudRate::decode(b.bps()) == Ok::<BaudRate, Error>(b),
    {
        let c = choose|c: BaudRate| c.bps() == b.bps();
        BaudRate::lemma_bps_injective(b, c);
    }

    /// Maps the speed that a terminal device reported, in bits per second,
    /// to its rate. A device that reported none, or one that no rate has,
    /// is in an unexpected state.
    pub fn from_speed(reading: Option<usize>) -> (res: Result<BaudRate, Error>)
        ensures
            reading matches Some(speed) ==> res == BaudRate::decode(speed as int),
            reading is None ==> res == Err::<BaudRate, Error>(Error::UnexpectedValue),
    {
        match reading {
            Some(speed) => {
                if speed > 230400 {
                    proof {
                        assert forall|b: BaudRate| b.bps() != speed as int by {}
                    }
                    Err(Error::UnexpectedValue)
                } else {
                    BaudRate::from_bits_per_second(speed as u32)
                }
            },
            None => Err(Error::UnexpectedValue),
        }
    }
}

impl ByteSize {
    /// The number of data bits, which is also the native value of the size
    /// in a device control block.
    pub open spec fn width(self) -> int {
        match self {
            ByteSize::B5 => 5,
            ByteSize::B6 => 6,
            ByteSize::B7 => 7,
            ByteSize::B8 => 8,
        }
    }

    /// The size whose native value is `raw`, where there is one.
    pub open spec fn decode(raw: int) -> Result<ByteSize, Error> {
        if exists|s: ByteSize| s.width() == raw {
            Ok(choose|s: ByteSize| s.width() == raw)
        } else {
            Err(Error::UnexpectedValue)
        }
    }

    /// The native value of the size.
    pub fn bits(self) -> (n: u8)
        ensures
            n == self.width(),
    {
        match self {
            ByteSize::B5 => 5,
            ByteSize::B6 => 6,
            ByteSize::B7 => 7,
            ByteSize::B8 => 8,
        }
    }

    /// Maps a native value back to its size, or reports it as unexpected.
    pub fn from_bits(raw: u8) -> (res: Result<ByteSize, Error>)
        ensures
            res == ByteSize::decode(raw as int),
            res matches Ok(s) ==> s.width() == raw,
            res is Err <==> forall|s: ByteSize| s.width() != raw,
            res matches Err(e) ==> e == Error::UnexpectedValue,
    {
        let found = match raw {
            5 => Some(ByteSize::B5),
            6 => Some(ByteSize::B6),
            7 => Some(ByteSize::B7),
            8 => Some(ByteSize::B8),
            _ => None,
        };
        match found {
            Some(s) => {
                proof {
                    assert(s.width() == raw as int);
                    ByteSize::lemma_width_injective(s, choose|c: ByteSize| c.width() == raw as int);
                }
                Ok(s)
            },
            None => Err(Error::UnexpectedValue),
        }
    }

    /// No two sizes share a native value.
    pub proof fn lemma_width_injective(a: ByteSize, b: ByteSize)
        requires
            a.width() == b.width(),
        ensures
            a == b,
    {
    }

    /// Every size survives the trip through its native value.
    pub proof fn lemma_round_trip(s: ByteSize)
        ensures
            ByteSize::decode(s.width()) == Ok::<ByteSize, Error>(s),
    {
        let c = choose|c: ByteSize| c.width() == s.width();
        ByteSize::lemma_width_injective(s, c);
    }
}

impl Parity {
    /// The native value of the mode in a device control block.
    pub open spec fn native(self) -> int {
        match self {
            Parity::NoParity => 0,
            Parity::Odd => 1,
            Parity::Even => 2,
            Parity::Mark => 3,
            Parity::Space => 4,
        }
    }

    /// The mode whose native value is `raw`, where there is one.
    pub open spec fn decode(raw: int) -> Result<Parity, Error> {
        if exists|p: Parity| p.native() == raw {
            Ok(choose|p: Parity| p.native() == raw)
        } else {
            Err(Error::UnexpectedValue)
        }
    }

    /// The mode of a terminal device that stands for this mode, where the
    /// terminal has one: it has none for `Mark` and `Space`.
    pub open spec fn tty(self) -> Option<TtyParity> {
        match self {
            Parity::NoParity => Some(TtyParity::Off),
            Parity::Odd => Some(TtyParity::Odd),
            Parity::Even => Some(TtyParity::Even),
            Parity::Mark => None,
            Parity::Space => None,
        }
    }

    /// The mode that a terminal's mode stands for.
    pub open spec fn of_tty(t: TtyParity) -> Parity {
        match t {
            TtyParity::Off => Parity::NoParity,
            TtyParity::Odd => Parity::Odd,
            TtyParity::Even => Parity::Even,
        }
    }

    /// The native value of the mode in a device control block.
    pub fn code(self) -> (n: u8)
        ensures
            n == self.native(),
    {
        match self {
            Parity::NoParity => 0,
            Parity::Odd => 1,
            Parity::Even => 2,
            Parity::Mark => 3,
            Parity::Space => 4,
        }
    }

    /// Maps a native value back to its mode, or reports it as unexpected.
    pub fn from_code(raw: u8) -> (res: Result<Parity, Error>)
        ensures
            res == Parity::decode(raw as int),
            res matches Ok(p) ==> p.native() == raw,
            res is Err <==> forall|p: Parity| p.native() != raw,
            res matches Err(e) ==> e == Error::UnexpectedValue,
    {
        let found = match raw {
            0 => Some(Parity::NoParity),
            1 => Some(Parity::Odd),
            2 => Some(Parity::Even),
            3 => Some(Parity::Mark),
            4 => Some(Parity::Space),
            _ => None,
        };
        match found {
            Some(p) => {
                proof {
                    assert(p.native() == raw as int);
                    Parity::lemma_native_injective(p, choose|c: Parity| c.native() == raw as int);
                }
                Ok(p)
            },
            None => Err(Error::UnexpectedValue),
        }
    }

    /// The mode to ask of a terminal device. `Mark` and `Space` are refused
    /// as `Unsupported`; they are never replaced by a mode that exists.
    pub fn to_tty(self) -> (res: Result<TtyParity, Error>)
        ensures
            self.tty() matches Some(t) ==> res == Ok::<TtyParity, Error>(t),
            self.tty() is None ==> res == Err::<TtyParity, Error>(Error::Unsupported),
    {
        match self {
            Parity::NoParity => Ok(TtyParity::Off),
            Parity::Odd => Ok(TtyParity::Odd),
            Parity::Even => Ok(TtyParity::Even),
            Parity::Mark => Err(Error::Unsupported),
            Parity::Space => Err(Error::Unsupported),
        }
    }

    /// The mode that a terminal's mode stands for.
    pub fn from_tty(t: TtyParity) -> (p: Parity)
        ensures
            p == Parity::of_tty(t),
    {
        match t {
            TtyParity::Off => Parity::NoParity,
            TtyParity::Odd => Parity::Odd,
            TtyParity::Even => Parity::Even,
        }
    }

    /// No two modes share a native value.
    pub proof fn lemma_native_injective(a: Parity, b: Parity)
        requires
            a.native() == b.native(),
        ensures
            a == b,
    {
    }

    /// Every mode survives the trip through its native value.
    pub proof fn lemma_round_trip(p: Parity)
        ensures
            Parity::decode(p.native()) == Ok::<Parity, Error>(p),
    {
        let c = choose|c: Parity| c.native() == p.native();
        Parity::lemma_native_injective(p, c);
    }

    /// Every mode that a terminal has survives the trip through the
    /// terminal's mode, and so does every mode of the terminal the trip
    /// the other way. The modes that a terminal lacks are `Mark` and
    /// `Space`.
    pub proof fn lemma_tty_round_trip(p: Parity, t: TtyParity)
        ensures
            p.tty() matches Some(u) ==> Parity::of_tty(u) == p,
            Parity::of_tty(t).tty() == Some(t),
            p.tty() is None <==> p is Mark || p is Space,
    {
    }
}

impl StopBits {
    /// The native value of the count in a device control block.
    pub open spec fn native(self) -> int {
        match self {
            StopBits::B1 => 0,
            StopBits::B1p5 => 1,
            StopBits::B2 => 2,
        }
    }

    /// The count whose native value is `raw`, where there is one.
    pub open spec fn decode(raw: int) -> Result<StopBits, Error> {
        if exists|s: StopBits| s.native() == raw {
            Ok(choose|s: StopBits| s.native() == raw)
        } else {
            Err(Error::UnexpectedValue)
        }
    }

    /// The count of a terminal device that stands for this count, where
    /// the terminal has one: it has none for one and a half stop bits.
    pub open spec fn tty(self) -> Option<TtyStopBits> {
        match self {
            StopBits::B1 => Some(TtyStopBits::One),
            StopBits::B1p5 => None,
            StopBits::B2 => Some(TtyStopBits::Two),
        }
    }

    /// The count that a terminal's count stands for.
    pub open spec fn of_tty(t: TtyStopBits) -> StopBits {
        match t {
            TtyStopBits::One => StopBits::B1,
            TtyStopBits::Two => StopBits::B2,
        }
    }

    /// The native value of the count in a device control block.
    pub fn code(self) -> (n: u8)
        ensures
            n == self.native(),
    {
        match self {
            StopBits::B1 => 0,
            StopBits::B1p5 => 1,
            StopBits::B2 => 2,
        }
    }

    /// Maps a native value back to its count, or reports it as unexpected.
    pub fn from_code(raw: u8) -> (res: Result<StopBits, Error>)
        ensures
            res == StopBits::decode(raw as int),
            res matches Ok(s) ==> s.native() == raw,
            res is Err <==> forall|s: StopBits| s.native() != raw,
            res matches Err(e) ==> e == Error::UnexpectedValue,
    {
        let found = match raw {
            0 => Some(StopBits::B1),
            1 => Some(StopBits::B1p5),
            2 => Some(StopBits::B2),
            _ => None,
        };
        match found {
            Some(s) => {
                proof {
                    assert(s.native() == raw as int);
                    StopBits::lemma_native_injective(s, choose|c: StopBits| c.native() == raw as int);
                }
                Ok(s)
            },
            None => Err(Error::UnexpectedValue),
        }
    }

    /// The count to ask of a terminal device. One and a half stop bits are
    /// refused as `Unsupported`, never rounded.
    pub fn to_tty(self) -> (res: Result<TtyStopBits, Error>)
        ensures
            self.tty() matches Some(t) ==> res == Ok::<TtyStopBits, Error>(t),
            self.tty() is None ==> res == Err::<TtyStopBits, Error>(Error::Unsupported),
    {
        match self {
            StopBits::B1 => Ok(TtyStopBits::One),
            StopBits::B1p5 => Err(Error::Unsupported),
            StopBits::B2 => Ok(TtyStopBits::Two),
        }
    }

    /// The count that a terminal's count stands for.
    pub fn from_tty(t: TtyStopBits) -> (s: StopBits)
        ensures
            s == StopBits::of_tty(t),
    {
        match t {
            TtyStopBits::One => StopBits::B1,
            TtyStopBits::Two => StopBits::B2,
        }
    }

    /// No two counts share a native value.
    pub proof fn lemma_native_injective(a: StopBits, b: StopBits)
        requires
            a.native() == b.native(),
        ensures
            a == b,
    {
    }

    /// Every count survives the trip through its native value.
    pub proof fn lemma_round_trip(s: StopBits)
        ensures
            StopBits::decode(s.native()) == Ok::<StopBits, Error>(s),
    {
        let c = choose|c: StopBits| c.native() == s.native();
        StopBits::lemma_native_injective(s, c);
    }

    /// Every count that a terminal has survives the trip through the
    /// terminal's count, and so does every count of the terminal the trip
    /// the other way. The count that a terminal lacks is one and a half.
    pub proof fn lemma_tty_round_trip(s: StopBits, t: TtyStopBits)
        ensures
            s.tty() matches Some(u) ==> StopBits::of_tty(u) == s,
            StopBits::of_tty(t).tty() == Some(t),
            s.tty() is None <==> s is B1p5,
    {
    }
}

} // verus!
