//! The calls into the serial port layer. Nothing in this file is proved:
//! each contract below is taken on trust from the layer's source.

use vstd::prelude::*;
use crate::line::ByteSize;
use crate::tty::{IoFault, PortFault, TtyParity, TtyStopBits};

verus! {

/// `serial::unix::TTYPort`: an open terminal device. The value owns the
/// native handle and closes it when it is dropped. Nothing inside it is
/// seen here.
#[verifier::external_type_specification]
#[verifier::external_body]
pub struct ExTtyPort(serial::unix::TTYPort);

/// `serial::unix::TTYSettings`: the state of a terminal device as it was
/// read, held in memory. Nothing inside it is seen here.
#[verifier::external_type_specification]
#[verifier::external_body]
pub struct ExTtySettings(serial::unix::TTYSettings);

/// `serial::open`: opens the named terminal device for exclusive use. On
/// failure only the kind of the error is kept. Nothing is claimed of the
/// outcome.
#[verifier::external_body]
pub(crate) fn open_port(name: &str) -> (res: Result<serial::unix::TTYPort, PortFault>) {
    match serial::open(name) {
        Ok(port) => Ok(port),
        Err(e) => Err(match e.kind() {
            serial::ErrorKind::NoDevice => PortFault::NoDevice,
            serial::ErrorKind::InvalidInput => PortFault::InvalidInput,
            serial::ErrorKind::Io(_) => PortFault::Io,
        }),
    }
}

/// `std::path::Path::exists`: whether the name leads to something in the
/// file system at this moment. Nothing is claimed of the answer.
#[verifier::external_body]
pub(crate) fn path_exists(name: &str) -> (exists: bool) {
    std::path::Path::new(name).exists()
}

/// `SerialDevice::read_settings`: reads the current state of the device
/// into memory. Nothing is claimed of the outcome.
#[verifier::external_body]
pub(crate) fn read_state(port: &serial::unix::TTYPort) -> (res: Result<serial::unix::TTYSettings, PortFault>) {
    match serial::core::SerialDevice::read_settings(port) {
        Ok(state) => Ok(state),
        Err(e) => Err(match e.kind() {
            serial::ErrorKind::NoDevice => PortFault::NoDevice,
            serial::ErrorKind::InvalidInput => PortFault::InvalidInput,
            serial::ErrorKind::Io(_) => PortFault::Io,
        }),
    }
}

/// `SerialDevice::write_settings`: makes `state` the state of the device
/// and drops what waits to be read or sent. Nothing is claimed of the
/// outcome.
#[verifier::external_body]
pub(crate) fn write_state(port: &mut serial::unix::TTYPort, state: &serial::unix::TTYSettings) -> (res: Result<(), PortFault>) {
    match serial::core::SerialDevice::write_settings(port, state) {
        Ok(()) => Ok(()),
        Err(e) => Err(match e.kind() {
            serial::ErrorKind::NoDevice => PortFault::NoDevice,
            serial::ErrorKind::InvalidInput => PortFault::InvalidInput,
            serial::ErrorKind::Io(_) => PortFault::Io,
        }),
    }
}

/// `SerialPortSettings::baud_rate`, then `BaudRate::speed`: the rate held
/// in a device state, in bits per second, or nothing where the state holds
/// no rate that the layer knows. Nothing is claimed of the answer.
#[verifier::external_body]
pub(crate) fn state_speed(state: &serial::unix::TTYSettings) -> (speed: Option<usize>) {
    match serial::SerialPortSettings::baud_rate(state) {
        Some(rate) => Some(rate.speed()),
        None => None,
    }
}

/// `BaudRate::from_speed`, then `SerialPortSettings::set_baud_rate`: puts
/// a rate, given in bits per second, into a device state. The layer fails
/// for a speed that is not in its list for the platform; a speed of zero
/// is in none of its lists. Nothing is claimed of the outcome.
#[verifier::external_body]
pub(crate) fn state_set_speed(state: &mut serial::unix::TTYSettings, speed: usize) -> (res: Result<(), PortFault>) {
    match serial::SerialPortSettings::set_baud_rate(state, serial::BaudRate::from_speed(speed)) {
        Ok(()) => Ok(()),
        Err(e) => Err(match e.kind() {
            serial::ErrorKind::NoDevice => PortFault::NoDevice,
            serial::ErrorKind::InvalidInput => PortFault::InvalidInput,
            serial::ErrorKind::Io(_) => PortFault::Io,
        }),
    }
}

/// `SerialPortSettings::char_size`: the character size held in a device
/// state. Nothing is claimed of the answer.
#[verifier::external_body]
pub(crate) fn state_char_size(state: &serial::unix::TTYSettings) -> (size: Option<ByteSize>) {
    match serial::SerialPortSettings::char_size(state) {
        Some(serial::CharSize::Bits5) => Some(ByteSize::B5),
        Some(serial::CharSize::Bits6) => Some(ByteSize::B6),
        Some(serial::CharSize::Bits7) => Some(ByteSize::B7),
        Some(serial::CharSize::Bits8) => Some(ByteSize::B8),
        None => None,
    }
}

/// `SerialPortSettings::set_char_size`: puts a character size into a
/// device state.
#[verifier::external_body]
pub(crate) fn state_set_char_size(state: &mut serial::unix::TTYSettings, size: ByteSize) {
    serial::SerialPortSettings::set_char_size(state, match size {
        ByteSize::B5 => serial::CharSize::Bits5,
        ByteSize::B6 => serial::CharSize::Bits6,
        ByteSize::B7 => serial::CharSize::Bits7,
        ByteSize::B8 => serial::CharSize::Bits8,
    })
}

/// `SerialPortSettings::parity`: the parity mode held in a device state.
/// Nothing is claimed of the answer.
#[verifier::external_body]
pub(crate) fn state_parity(state: &serial::unix::TTYSettings) -> (parity: Option<TtyParity>) {
    match serial::SerialPortSettings::parity(state) {
        Some(serial::Parity::ParityNone) => Some(TtyParity::Off),
        Some(serial::Parity::ParityOdd) => Some(TtyParity::Odd),
        Some(serial::Parity::ParityEven) => Some(TtyParity::Even),
        None => None,
    }
}

/// `SerialPortSettings::set_parity`: puts a parity mode into a device
/// state.
#[verifier::external_body]
pub(crate) fn state_set_parity(state: &mut serial::unix::TTYSettings, parity: TtyParity) {
    serial::SerialPortSettings::set_parity(state, match parity {
        TtyParity::Off => serial::Parity::ParityNone,
        TtyParity::Odd => serial::Parity::ParityOdd,
        TtyParity::Even => serial::Parity::ParityEven,
    })
}

/// `SerialPortSettings::stop_bits`: the stop bit count held in a device
/// state. Nothing is claimed of the answer.
#[verifier::external_body]
pub(crate) fn state_stop_bits(state: &serial::unix::TTYSettings) -> (stop_bits: Option<TtyStopBits>) {
    match serial::SerialPortSettings::stop_bits(state) {
        Some(serial::StopBits::Stop1) => Some(TtyStopBits::One),
        Some(serial::StopBits::Stop2) => Some(TtyStopBits::Two),
        None => None,
    }
}

/// `SerialPortSettings::set_stop_bits`: puts a stop bit count into a
/// device state.
#[verifier::external_body]
pub(crate) fn state_set_stop_bits(state: &mut serial::unix::TTYSettings, stop_bits: TtyStopBits) {
    serial::SerialPortSettings::set_stop_bits(state, match stop_bits {
        TtyStopBits::One => serial::StopBits::Stop1,
        TtyStopBits::Two => serial::StopBits::Stop2,
    })
}

/// `std::io::Read::read` of the port: waits for data and then hands the
/// buffer to the system's read, which stores the bytes that it counts at
/// the front of the buffer. The count that comes back is never more than
/// the buffer holds, the buffer keeps its length, and the bytes behind the
/// count are as they were. Where the wait ends without data the system's
/// read is not called, so the whole buffer is as it was.
#[verifier::external_body]
pub(crate) fn port_read(port: &mut serial::unix::TTYPort, buf: &mut [u8]) -> (res: Result<usize, IoFault>)
    ensures
        final(buf)@.len() == old(buf)@.len(),
        res matches Ok(n) ==> n <= old(buf)@.len(),
        res matches Ok(n) ==> forall|i: int|
            n <= i < old(buf)@.len() ==> final(buf)@[i] == old(buf)@[i],
        res == Err::<usize, IoFault>(IoFault::TimedOut) ==> final(buf)@ == old(buf)@,
{
    match std::io::Read::read(port, buf) {
        Ok(n) => Ok(n),
        Err(e) => Err(match (e.raw_os_error(), e.kind()) {
            (Some(code), _) => IoFault::Os(code),
            (None, std::io::ErrorKind::TimedOut) => IoFault::TimedOut,
            (None, std::io::ErrorKind::Interrupted) => IoFault::Interrupted,
            (None, _) => IoFault::Other,
        }),
    }
}

/// `std::io::Write::write` of the port: hands at most `buf.len()` bytes to
/// the device. The count that comes back is never more than was offered.
#[verifier::external_body]
pub(crate) fn port_write(port: &mut serial::unix::TTYPort, buf: &[u8]) -> (res: Result<usize, IoFault>)
    ensures
        res matches Ok(n) ==> n <= buf@.len(),
{
    match std::io::Write::write(port, buf) {
        Ok(n) => Ok(n),
        Err(e) => Err(match (e.raw_os_error(), e.kind()) {
            (Some(code), _) => IoFault::Os(code),
            (None, std::io::ErrorKind::TimedOut) => IoFault::TimedOut,
            (None, std::io::ErrorKind::Interrupted) => IoFault::Interrupted,
            (None, _) => IoFault::Other,
        }),
    }
}

/// `std::io::Write::flush` of the port: waits until the device has sent
/// what was written. Nothing is claimed of the outcome.
#[verifier::external_body]
pub(crate) fn port_flush(port: &mut serial::unix::TTYPort) -> (res: Result<(), IoFault>) {
    match std::io::Write::flush(port) {
        Ok(()) => Ok(()),
        Err(e) => Err(match (e.raw_os_error(), e.kind()) {
            (Some(code), _) => IoFault::Os(code),
            (None, std::io::ErrorKind::TimedOut) => IoFault::TimedOut,
            (None, std::io::ErrorKind::Interrupted) => IoFault::Interrupted,
            (None, _) => IoFault::Other,
        }),
    }
}

} // verus!
