use se_rs_ial::tty::{TtyParity, TtyStopBits};
use se_rs_ial::{BaudRate, ByteSize, Error, Parity, StopBits};

const RATES: [(BaudRate, u32); 19] = [
    (BaudRate::B0, 0),
    (BaudRate::B50, 50),
    (BaudRate::B75, 75),
    (BaudRate::B110, 110),
    (BaudRate::B134, 134),
    (BaudRate::B150, 150),
    (BaudRate::B200, 200),
    (BaudRate::B300, 300),
    (BaudRate::B600, 600),
    (BaudRate::B1200, 1200),
    (BaudRate::B1800, 1800),
    (BaudRate::B2400, 2400),
    (BaudRate::B4800, 4800),
    (BaudRate::B9600, 9600),
    (BaudRate::B19200, 19200),
    (BaudRate::B38400, 38400),
    (BaudRate::B57600, 57600),
    (BaudRate::B115200, 115200),
    (BaudRate::B230400, 230400),
];

#[test]
fn baud_rate_maps_to_bits_per_second() {
    for (rate, raw) in RATES {
        assert_eq!(rate.bits_per_second(), raw);
    }
}

#[test]
fn baud_rate_round_trips_through_its_native_value() {
    for (rate, raw) in RATES {
        assert_eq!(BaudRate::from_bits_per_second(raw), Ok(rate));
        assert_eq!(BaudRate::from_bits_per_second(rate.bits_per_second()), Ok(rate));
    }
}

#[test]
fn baud_rate_rejects_unknown_values() {
    for raw in [1u32, 49, 51, 9599, 9601, 14400, 230401, 460800, u32::MAX] {
        assert_eq!(BaudRate::from_bits_per_second(raw), Err(Error::UnexpectedValue));
    }
}

#[test]
fn baud_rate_from_reported_speed() {
    assert_eq!(BaudRate::from_speed(Some(9600)), Ok(BaudRate::B9600));
    assert_eq!(BaudRate::from_speed(Some(230400)), Ok(BaudRate::B230400));
    assert_eq!(BaudRate::from_speed(Some(0)), Ok(BaudRate::B0));
    assert_eq!(BaudRate::from_speed(Some(460800)), Err(Error::UnexpectedValue));
    assert_eq!(BaudRate::from_speed(Some(usize::MAX)), Err(Error::UnexpectedValue));
    assert_eq!(BaudRate::from_speed(None), Err(Error::UnexpectedValue));
}

#[test]
fn byte_size_maps_to_its_width() {
    let sizes = [(ByteSize::B5, 5u8), (ByteSize::B6, 6), (ByteSize::B7, 7), (ByteSize::B8, 8)];
    for (size, raw) in sizes {
        assert_eq!(size.bits(), raw);
        assert_eq!(ByteSize::from_bits(raw), Ok(size));
    }
    for raw in [0u8, 4, 9, 16, 255] {
        assert_eq!(ByteSize::from_bits(raw), Err(Error::UnexpectedValue));
    }
}

#[test]
fn parity_maps_to_its_control_block_code() {
    let modes = [
        (Parity::NoParity, 0u8),
        (Parity::Odd, 1),
        (Parity::Even, 2),
        (Parity::Mark, 3),
        (Parity::Space, 4),
    ];
    for (mode, raw) in modes {
        assert_eq!(mode.code(), raw);
        assert_eq!(Parity::from_code(raw), Ok(mode));
    }
    for raw in [5u8, 6, 128, 255] {
        assert_eq!(Parity::from_code(raw), Err(Error::UnexpectedValue));
    }
}

#[test]
fn stop_bits_map_to_their_control_block_code() {
    let counts = [(StopBits::B1, 0u8), (StopBits::B1p5, 1), (StopBits::B2, 2)];
    for (count, raw) in counts {
        assert_eq!(count.code(), raw);
        assert_eq!(StopBits::from_code(raw), Ok(count));
    }
    for raw in [3u8, 4, 255] {
        assert_eq!(StopBits::from_code(raw), Err(Error::UnexpectedValue));
    }
}

#[test]
fn terminal_has_three_parity_modes() {
    assert_eq!(Parity::NoParity.to_tty(), Ok(TtyParity::Off));
    assert_eq!(Parity::Odd.to_tty(), Ok(TtyParity::Odd));
    assert_eq!(Parity::Even.to_tty(), Ok(TtyParity::Even));
    assert_eq!(Parity::Mark.to_tty(), Err(Error::Unsupported));
    assert_eq!(Parity::Space.to_tty(), Err(Error::Unsupported));
    for mode in [Parity::NoParity, Parity::Odd, Parity::Even] {
        assert_eq!(Parity::from_tty(mode.to_tty().unwrap()), mode);
    }
    assert_eq!(Parity::from_tty(TtyParity::Off), Parity::NoParity);
    assert_eq!(Parity::from_tty(TtyParity::Odd), Parity::Odd);
    assert_eq!(Parity::from_tty(TtyParity::Even), Parity::Even);
}

#[test]
fn terminal_has_two_stop_bit_counts() {
    assert_eq!(StopBits::B1.to_tty(), Ok(TtyStopBits::One));
    assert_eq!(StopBits::B2.to_tty(), Ok(TtyStopBits::Two));
    assert_eq!(StopBits::B1p5.to_tty(), Err(Error::Unsupported));
    assert_eq!(StopBits::from_tty(TtyStopBits::One), StopBits::B1);
    assert_eq!(StopBits::from_tty(TtyStopBits::Two), StopBits::B2);
}
