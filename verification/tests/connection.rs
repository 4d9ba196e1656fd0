use nix::fcntl::OFlag;
use nix::pty::{grantpt, posix_openpt, ptsname_r, unlockpt, PtyMaster};
use se_rs_ial::connection::{first_failure, opening_settings};
use se_rs_ial::{BaudRate, ByteSize, Connection, Error, Parity, Setting, StopBits};
use std::io::{Read, Write};

fn terminal_pair() -> (PtyMaster, String) {
    let master = posix_openpt(OFlag::O_RDWR | OFlag::O_NOCTTY).unwrap();
    grantpt(&master).unwrap();
    unlockpt(&master).unwrap();
    let name = ptsname_r(&master).unwrap();
    (master, name)
}

#[test]
fn open_sets_eight_bits_no_parity_one_stop_bit() {
    let (_master, name) = terminal_pair();
    let conn = Connection::open(&name, BaudRate::B19200).unwrap();
    assert_eq!(conn.baud_rate(), Ok(BaudRate::B19200));
    assert_eq!(conn.byte_size(), Ok(ByteSize::B8));
    assert_eq!(conn.parity(), Ok(Parity::NoParity));
    assert_eq!(conn.stop_bits(), Ok(StopBits::B1));
}

#[test]
fn open_device_held_by_another_is_already_in_use() {
    let (_master, name) = terminal_pair();
    let _held = Connection::open(&name, BaudRate::B9600).unwrap();
    match Connection::open(&name, BaudRate::B9600) {
        Err(e) => assert_eq!(e, Error::AlreadyInUse),
        Ok(_) => println!("Exclusive use is not enforced for a privileged user"),
    }
}

#[test]
fn open_missing_device_is_not_found() {
    let res = Connection::open("/dev/no-such-serial-device", BaudRate::B9600);
    assert_eq!(res.err(), Some(Error::NotFound));
    let res = Connection::open("/no-such-directory/ttyS0", BaudRate::B9600);
    assert_eq!(res.err(), Some(Error::NotFound));
}

#[test]
fn open_something_that_is_no_terminal_fails() {
    let res = Connection::open("/dev/null", BaudRate::B9600);
    assert_eq!(res.err(), Some(Error::OpenFailed));
}

#[test]
fn open_applies_rate_eight_bits_no_parity_one_stop_bit() {
    assert_eq!(
        opening_settings(BaudRate::B115200),
        [
            Setting::Rate(BaudRate::B115200),
            Setting::Size(ByteSize::B8),
            Setting::Mode(Parity::NoParity),
            Setting::Stop(StopBits::B1),
        ]
    );
    assert_eq!(opening_settings(BaudRate::B0)[0], Setting::Rate(BaudRate::B0));
}

#[test]
fn first_failed_step_decides() {
    let failed = Err(Error::ConfigurationFailed);
    assert_eq!(first_failure(&[]), Ok(()));
    assert_eq!(first_failure(&[Ok(()), Ok(()), Ok(()), Ok(())]), Ok(()));
    assert_eq!(first_failure(&[Ok(()), failed]), failed);
    assert_eq!(first_failure(&[failed]), failed);
    assert_eq!(first_failure(&[Ok(()), Err(Error::Unsupported), failed]), Err(Error::Unsupported));
    assert_eq!(first_failure(&[failed, Err(Error::Unsupported), Ok(())]), failed);
}

#[test]
fn open_that_cannot_apply_a_setting_closes_the_device() {
    // The serial layer below has no value for a speed of zero, so the rate
    // cannot be put into the state of the device.
    let (_master, name) = terminal_pair();
    let res = Connection::open(&name, BaudRate::B0);
    assert_eq!(res.err(), Some(Error::ConfigurationFailed));
    // The device was closed again: it can be opened once more.
    assert!(Connection::open(&name, BaudRate::B9600).is_ok());
}

#[test]
fn every_supported_baud_rate_is_read_back() {
    let (_master, name) = terminal_pair();
    let mut conn = Connection::open(&name, BaudRate::B9600).unwrap();
    let rates = [
        BaudRate::B50,
        BaudRate::B75,
        BaudRate::B110,
        BaudRate::B134,
        BaudRate::B150,
        BaudRate::B200,
        BaudRate::B300,
        BaudRate::B600,
        BaudRate::B1200,
        BaudRate::B1800,
        BaudRate::B2400,
        BaudRate::B4800,
        BaudRate::B9600,
        BaudRate::B19200,
        BaudRate::B38400,
        BaudRate::B57600,
        BaudRate::B115200,
        BaudRate::B230400,
    ];
    for rate in rates {
        assert_eq!(conn.set_baud_rate(rate), Ok(()));
        assert_eq!(conn.baud_rate(), Ok(rate));
    }
}

#[test]
fn failed_change_of_rate_leaves_the_rate() {
    let (_master, name) = terminal_pair();
    let mut conn = Connection::open(&name, BaudRate::B57600).unwrap();
    assert_eq!(conn.set_baud_rate(BaudRate::B0), Err(Error::ConfigurationFailed));
    assert_eq!(conn.baud_rate(), Ok(BaudRate::B57600));
}

#[test]
fn apply_sets_the_setting_it_is_given() {
    let (_master, name) = terminal_pair();
    let mut conn = Connection::open(&name, BaudRate::B9600).unwrap();
    assert_eq!(conn.apply(Setting::Rate(BaudRate::B2400)), Ok(()));
    assert_eq!(conn.baud_rate(), Ok(BaudRate::B2400));
    assert_eq!(conn.apply(Setting::Stop(StopBits::B2)), Ok(()));
    assert_eq!(conn.stop_bits(), Ok(StopBits::B2));
    assert_eq!(conn.apply(Setting::Size(ByteSize::B8)), Ok(()));
    assert_eq!(conn.apply(Setting::Mode(Parity::NoParity)), Ok(()));
    assert_eq!(conn.apply(Setting::Mode(Parity::Mark)), Err(Error::Unsupported));
    assert_eq!(conn.apply(Setting::Mode(Parity::Space)), Err(Error::Unsupported));
    assert_eq!(conn.apply(Setting::Stop(StopBits::B1p5)), Err(Error::Unsupported));
    assert_eq!(conn.baud_rate(), Ok(BaudRate::B2400));
    assert_eq!(conn.stop_bits(), Ok(StopBits::B2));
}

#[test]
fn stop_bits_are_read_back() {
    let (_master, name) = terminal_pair();
    let mut conn = Connection::open(&name, BaudRate::B9600).unwrap();
    for count in [StopBits::B2, StopBits::B1, StopBits::B2] {
        assert_eq!(conn.set_stop_bits(count), Ok(()));
        assert_eq!(conn.stop_bits(), Ok(count));
    }
}

#[test]
fn refused_byte_size_is_a_failed_configuration() {
    // A pseudo-terminal has eight data bits and nothing else.
    let (_master, name) = terminal_pair();
    let mut conn = Connection::open(&name, BaudRate::B9600).unwrap();
    for size in [ByteSize::B6, ByteSize::B7] {
        match conn.set_byte_size(size) {
            Ok(()) => (),
            Err(e) => assert_eq!(e, Error::ConfigurationFailed),
        }
        assert_eq!(conn.byte_size(), Ok(ByteSize::B8));
    }
    assert_eq!(conn.set_byte_size(ByteSize::B8), Ok(()));
    assert_eq!(conn.byte_size(), Ok(ByteSize::B8));
    assert_eq!(conn.set_parity(Parity::NoParity), Ok(()));
    assert_eq!(conn.parity(), Ok(Parity::NoParity));
}

#[test]
fn unsupported_parity_and_stop_bits_change_nothing() {
    let (_master, name) = terminal_pair();
    let mut conn = Connection::open(&name, BaudRate::B4800).unwrap();
    conn.set_stop_bits(StopBits::B2).unwrap();
    assert_eq!(conn.set_parity(Parity::Mark), Err(Error::Unsupported));
    assert_eq!(conn.set_parity(Parity::Space), Err(Error::Unsupported));
    assert_eq!(conn.set_stop_bits(StopBits::B1p5), Err(Error::Unsupported));
    assert_eq!(conn.parity(), Ok(Parity::NoParity));
    assert_eq!(conn.stop_bits(), Ok(StopBits::B2));
    assert_eq!(conn.baud_rate(), Ok(BaudRate::B4800));
    assert_eq!(conn.byte_size(), Ok(ByteSize::B8));
}

#[test]
fn written_bytes_arrive_in_order() {
    let (mut master, name) = terminal_pair();
    let mut conn = Connection::open(&name, BaudRate::B115200).unwrap();
    let message = b"Ada\x00\x1f\x4a\xff\x00\x80";
    assert_eq!(conn.write(message), Ok(message.len()));
    assert_eq!(conn.flush(), Ok(()));
    let mut got = [0u8; 9];
    master.read_exact(&mut got).unwrap();
    assert_eq!(&got, message);
}

#[test]
fn echoed_bytes_are_read_back_in_order() {
    let (mut master, name) = terminal_pair();
    let mut conn = Connection::open(&name, BaudRate::B115200).unwrap();
    // Every byte value but the two that the line keeps for flow control.
    let message: Vec<u8> = (0u8..=255).filter(|b| *b != 0x11 && *b != 0x13).collect();
    assert_eq!(conn.write(&message), Ok(message.len()));
    let mut at_far_end = vec![0u8; message.len()];
    master.read_exact(&mut at_far_end).unwrap();
    master.write_all(&at_far_end).unwrap();
    let mut echoed = Vec::new();
    let mut buf = [0u8; 100];
    while echoed.len() < message.len() {
        let n = conn.read(&mut buf).unwrap();
        assert!(n <= buf.len());
        assert!(n > 0);
        echoed.extend_from_slice(&buf[..n]);
    }
    assert_eq!(echoed, message);
}

#[test]
fn read_fills_no_more_than_the_buffer() {
    let (mut master, name) = terminal_pair();
    let mut conn = Connection::open(&name, BaudRate::B9600).unwrap();
    master.write_all(b"0123456789").unwrap();
    let mut buf = [0u8; 4];
    assert_eq!(conn.read(&mut buf), Ok(4));
    assert_eq!(&buf, b"0123");
    let mut rest = [0xEEu8; 16];
    assert_eq!(conn.read(&mut rest), Ok(6));
    assert_eq!(&rest[..6], b"456789");
    assert_eq!(&rest[6..], &[0xEEu8; 10]);
}

#[test]
fn read_without_data_returns_zero() {
    let (_master, name) = terminal_pair();
    let mut conn = Connection::open(&name, BaudRate::B9600).unwrap();
    let mut buf = [0u8; 8];
    assert_eq!(conn.read(&mut buf), Ok(0));
    assert_eq!(buf, [0u8; 8]);
}

#[test]
fn write_of_nothing_writes_nothing() {
    let (_master, name) = terminal_pair();
    let mut conn = Connection::open(&name, BaudRate::B9600).unwrap();
    assert_eq!(conn.write(&[]), Ok(0));
}
