use vstd::prelude::*;
use crate::error::Error;
use crate::line::{BaudRate, ByteSize, Parity, Setting, StopBits};
use crate::sys;
use crate::tty;

verus! {

/// One open serial device.
///
/// A value of this type owns the native handle of the device: there is a
/// connection only after `open` succeeded, and the handle is released when
/// the value goes out of scope, an early return of `open` included.
pub struct Connection {
    port: serial::unix::TTYPort,
}

/// The settings that `open` applies to a device that it has opened, in the
/// order in which it applies them: the rate that was asked for, eight data
/// bits, no parity, one stop bit.
pub fn opening_settings(baud_rate: BaudRate) -> (s: [Setting; 4])
    ensures
        s@ == seq![
            Setting::Rate(baud_rate),
            Setting::Size(ByteSize::B8),
            Setting::Mode(Parity::NoParity),
            Setting::Stop(StopBits::B1),
        ],
{
    let s = [
        Setting::Rate(baud_rate),
        Setting::Size(ByteSize::B8),
        Setting::Mode(Parity::NoParity),
        Setting::Stop(StopBits::B1),
    ];
    assert(s@ =~= seq![
        Setting::Rate(baud_rate),
        Setting::Size(ByteSize::B8),
        Setting::Mode(Parity::NoParity),
        Setting::Stop(StopBits::B1),
    ]);
    s
}

/// What a run of steps comes to, given the outcome of each step that was
/// taken, in order: the first error among them, and `Ok` where there is
/// none.
pub fn first_failure(outcomes: &[Result<(), Error>]) -> (res: Result<(), Error>)
    ensures
        res is Ok <==> forall|k: int| 0 <= k < outcomes@.len() ==> outcomes@[k] is Ok,
        forall|k: int|
            0 <= k < outcomes@.len() && outcomes@[k] is Err && (forall|j: int|
                0 <= j < k ==> outcomes@[j] is Ok) ==> res == outcomes@[k],
        res is Err ==> exists|k: int| 0 <= k < outcomes@.len() && outcomes@[k] == res,
{
    let mut i: usize = 0;
    while i < outcomes.len()
        invariant
            i <= outcomes@.len(),
            forall|k: int| 0 <= k < i ==> outcomes@[k] is Ok,
        decreases outcomes@.len() - i,
    {
        match outcomes[i] {
            Ok(()) => {},
            Err(e) => {
                assert(outcomes@[i as int] == Err::<(), Error>(e));
                assert forall|k: int|
                    0 <= k < outcomes@.len() && outcomes@[k] is Err && (forall|j: int|
                        0 <= j < k ==> outcomes@[j] is Ok) implies Err::<(), Error>(e)
                    == outcomes@[k] by {
                    if k < i {
                        assert(outcomes@[k] is Ok);
                    } else if k > i {
                        assert(outcomes@[i as int] is Ok);
                    }
                }
                return Err(e);
            },
        }
        i += 1;
    }
    Ok(())
}

impl Connection {
    /// Opens the named device and applies `opening_settings` to it, one
    /// after the other, up to the first that fails.
    ///
    /// A device that is not there is `NotFound`; one that is there but not
    /// available is `AlreadyInUse`; any other failure to open is
    /// `OpenFailed`. Where a setting cannot be applied, the device is
    /// closed again and `ConfigurationFailed` is returned.
    pub fn open(port: &str, baud_rate: BaudRate) -> (res: Result<Connection, Error>)
        ensures
            res matches Err(e) ==> e.is_open_error(),
    {
        match sys::open_port(port) {
            Err(fault) => {
                let exists = sys::path_exists(port);
                Err(fault.at_open(exists))
            },
            Ok(native) => {
                let mut conn = Connection { port: native };
                let settings = opening_settings(baud_rate);
                let mut outcomes: Vec<Result<(), Error>> = Vec::new();
                let mut failed = false;
                let mut i: usize = 0;
                while i < 4 && !failed
                    invariant
                        i <= 4,
                        settings@.len() == 4,
                        forall|k: int| 0 <= k < 4 ==> (#[trigger] settings@[k]).on_tty(),
                        outcomes@.len() == i,
                        forall|k: int|
                            0 <= k < i ==> outcomes@[k] is Ok || outcomes@[k] == Err::<(), Error>(
                                Error::ConfigurationFailed,
                            ),
                    decreases 4 - i,
                {
                    let outcome = conn.apply(settings[i]);
                    failed = outcome.is_err();
                    outcomes.push(outcome);
                    i += 1;
                }
                match first_failure(outcomes.as_slice()) {
                    Ok(()) => Ok(conn),
                    Err(e) => Err(e),
                }
            },
        }
    }

    /// Applies one setting to the line through the method that sets it.
    ///
    /// A setting that a terminal has no value for fails with `Unsupported`
    /// before anything is asked of the device, which stays as it was; no
    /// other failure is `Unsupported`.
    pub fn apply(&mut self, setting: Setting) -> (res: Result<(), Error>)
        ensures
            res == Err::<(), Error>(Error::Unsupported) <==> !setting.on_tty(),
            !setting.on_tty() ==> *final(self) == *old(self),
            res matches Err(e) ==> e.is_configure_error(),
    {
        match setting {
            Setting::Rate(baud_rate) => self.set_baud_rate(baud_rate),
            Setting::Size(byte_size) => self.set_byte_size(byte_size),
            Setting::Mode(parity) => self.set_parity(parity),
            Setting::Stop(stop_bits) => self.set_stop_bits(stop_bits),
        }
    }

    /// The baud rate that the device is set to.
    ///
    /// Fails with `ConfigurationFailed` where the state of the device
    /// cannot be read, and with `UnexpectedValue` where the device reports
    /// a speed that is no `BaudRate`.
    pub fn baud_rate(&self) -> (res: Result<BaudRate, Error>)
        ensures
            res matches Err(e) ==> e.is_query_error(),
    {
        match sys::read_state(&self.port) {
            Ok(state) => BaudRate::from_speed(sys::state_speed(&state)),
            Err(_) => Err(Error::ConfigurationFailed),
        }
    }

    /// Sets the baud rate: reads the state of the device, replaces the rate
    /// in it by the rate's bits per second and writes the state back.
    ///
    /// Every rate is handed to the device in the same way. Fails with
    /// `ConfigurationFailed` where the state cannot be read, changed or
    /// written.
    pub fn set_baud_rate(&mut self, baud_rate: BaudRate) -> (res: Result<(), Error>)
        ensures
            res matches Err(e) ==> e is ConfigurationFailed,
    {
        let mut state = match sys::read_state(&self.port) {
            Ok(state) => state,
            Err(_) => {
                return Err(Error::ConfigurationFailed);
            },
        };
        let speed = baud_rate.bits_per_second() as usize;
        if let Err(_) = sys::state_set_speed(&mut state, speed) {
            return Err(Error::ConfigurationFailed);
        }
        match sys::write_state(&mut self.port, &state) {
            Ok(()) => Ok(()),
            Err(_) => Err(Error::ConfigurationFailed),
        }
    }

    /// The number of data bits that the device is set to.
    ///
    /// Fails with `ConfigurationFailed` where the state of the device
    /// cannot be read, and with `UnexpectedValue` where the device reports
    /// no size that is a `ByteSize`.
    pub fn byte_size(&self) -> (res: Result<ByteSize, Error>)
        ensures
            res matches Err(e) ==> e.is_query_error(),
    {
        match sys::read_state(&self.port) {
            Ok(state) => tty::reported(sys::state_char_size(&state)),
            Err(_) => Err(Error::ConfigurationFailed),
        }
    }

    /// Sets the number of data bits: reads the state of the device,
    /// replaces the size in it and writes the state back.
    ///
    /// Fails with `ConfigurationFailed` where the state cannot be read or
    /// written.
    pub fn set_byte_size(&mut self, byte_size: ByteSize) -> (res: Result<(), Error>)
        ensures
            res matches Err(e) ==> e is ConfigurationFailed,
    {
        let mut state = match sys::read_state(&self.port) {
            Ok(state) => state,
            Err(_) => {
                return Err(Error::ConfigurationFailed);
            },
        };
        sys::state_set_char_size(&mut state, byte_size);
        match sys::write_state(&mut self.port, &state) {
            Ok(()) => Ok(()),
            Err(_) => Err(Error::ConfigurationFailed),
        }
    }

    /// The parity mode that the device is set to.
    ///
    /// Fails with `ConfigurationFailed` where the state of the device
    /// cannot be read, and with `UnexpectedValue` where the device reports
    /// no mode that is known. What is returned is a mode that a terminal
    /// has.
    pub fn parity(&self) -> (res: Result<Parity, Error>)
        ensures
            res matches Ok(p) ==> p.tty() is Some,
            res matches Err(e) ==> e.is_query_error(),
    {
        match sys::read_state(&self.port) {
            Ok(state) => match tty::reported(sys::state_parity(&state)) {
                Ok(t) => Ok(Parity::from_tty(t)),
                Err(e) => Err(e),
            },
            Err(_) => Err(Error::ConfigurationFailed),
        }
    }

    /// Sets the parity mode: reads the state of the device, replaces the
    /// mode in it and writes the state back.
    ///
    /// `Mark` and `Space`, which a terminal does not have, fail with
    /// `Unsupported` before anything is asked of the device, which stays as
    /// it was; nothing else fails with `Unsupported`. Fails with
    /// `ConfigurationFailed` where the state cannot be read or written.
    pub fn set_parity(&mut self, parity: Parity) -> (res: Result<(), Error>)
        ensures
            res == Err::<(), Error>(Error::Unsupported) <==> parity.tty() is None,
            parity.tty() is None ==> *final(self) == *old(self),
            res matches Err(e) ==> e.is_configure_error(),
    {
        let mode = match parity.to_tty() {
            Ok(mode) => mode,
            Err(e) => {
                return Err(e);
            },
        };
        let mut state = match sys::read_state(&self.port) {
            Ok(state) => state,
            Err(_) => {
                return Err(Error::ConfigurationFailed);
            },
        };
        sys::state_set_parity(&mut state, mode);
        match sys::write_state(&mut self.port, &state) {
            Ok(()) => Ok(()),
            Err(_) => Err(Error::ConfigurationFailed),
        }
    }

    /// The number of stop bits that the device is set to.
    ///
    /// Fails with `ConfigurationFailed` where the state of the device
    /// cannot be read, and with `UnexpectedValue` where the device reports
    /// no count that is known. What is returned is a count that a terminal
    /// has.
    pub fn stop_bits(&self) -> (res: Result<StopBits, Error>)
        ensures
            res matches Ok(s) ==> s.tty() is Some,
            res matches Err(e) ==> e.is_query_error(),
    {
        match sys::read_state(&self.port) {
            Ok(state) => match tty::reported(sys::state_stop_bits(&state)) {
                Ok(t) => Ok(StopBits::from_tty(t)),
                Err(e) => Err(e),
            },
            Err(_) => Err(Error::ConfigurationFailed),
        }
    }

    /// Sets the number of stop bits: reads the state of the device,
    /// replaces the count in it and writes the state back.
    ///
    /// One and a half stop bits, which a terminal does not have, fail with
    /// `Unsupported` before anything is asked of the device, which stays as
    /// it was; nothing else fails with `Unsupported`. Fails with
    /// `ConfigurationFailed` where the state cannot be read or written.
    pub fn set_stop_bits(&mut self, stop_bits: StopBits) -> (res: Result<(), Error>)
        ensures
            res == Err::<(), Error>(Error::Unsupported) <==> stop_bits.tty() is None,
            stop_bits.tty() is None ==> *final(self) == *old(self),
            res matches Err(e) ==> e.is_configure_error(),
    {
        let count = match stop_bits.to_tty() {
            Ok(count) => count,
            Err(e) => {
                return Err(e);
            },
        };
        let mut state = match sys::read_state(&self.port) {
            Ok(state) => state,
            Err(_) => {
                return Err(Error::ConfigurationFailed);
            },
        };
        sys::state_set_stop_bits(&mut state, count);
        match sys::write_state(&mut self.port, &state) {
            Ok(()) => Ok(()),
            Err(_) => Err(Error::ConfigurationFailed),
        }
    }

    /// Waits for data and reads at most `buf.len()` bytes into the front of
    /// `buf`; the rest of `buf` stays as it was. Returns how many bytes
    /// were read; this is zero where none came within the waiting time of
    /// the device.
    pub fn read(&mut self, buf: &mut [u8]) -> (res: Result<usize, Error>)
        ensures
            final(buf)@.len() == old(buf)@.len(),
            res matches Ok(n) ==> n <= old(buf)@.len(),
            res matches Ok(n) ==> forall|i: int|
                n <= i < old(buf)@.len() ==> final(buf)@[i] == old(buf)@[i],
            res matches Err(e) ==> e.is_io_error(),
    {
        tty::transfer(sys::port_read(&mut self.port, buf))
    }

    /// Writes bytes from the front of `buf` to the device. Returns how many
    /// bytes the device took, which may be fewer than were offered; this is
    /// zero where the device took none within its waiting time.
    pub fn write(&mut self, buf: &[u8]) -> (res: Result<usize, Error>)
        ensures
            res matches Ok(n) ==> n <= buf@.len(),
            res matches Err(e) ==> e.is_io_error(),
    {
        tty::transfer(sys::port_write(&mut self.port, buf))
    }

    /// Waits until everything that was written has been sent. Nothing is
    /// written again.
    pub fn flush(&mut self) -> (res: Result<(), Error>)
        ensures
            res matches Err(e) ==> e.is_io_error(),
    {
        match sys::port_flush(&mut self.port) {
            Ok(()) => Ok(()),
            Err(fault) => Err(fault.error()),
        }
    }
}

} // verus!
