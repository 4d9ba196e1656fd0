use vstd::prelude::*;

verus! {

/// Number of bytes in the header of a frame.
pub const HEADER_LEN: usize = 6;

/// Number of bytes that one LED takes in a frame: red, green, blue.
pub const PIXEL_LEN: usize = 3;

/// The largest number of LEDs that the header can announce.
pub const MAX_LEDS: usize = 65536;

/// Number of bytes in a frame for `n_leds` LEDs.
pub open spec fn frame_len(n_leds: int) -> int {
    6 + 3 * n_leds
}

/// The header of a frame for `n_leds` LEDs: the letters `Ada`, the high and
/// the low byte of the number of LEDs less one, and a checksum, which is
/// the two count bytes and `0x55` joined by exclusive or.
pub open spec fn header_bytes(n_leds: int) -> Seq<u8> {
    let hi = ((n_leds - 1) / 256) as u8;
    let lo = ((n_leds - 1) % 256) as u8;
    seq![0x41u8, 0x64u8, 0x61u8, hi, lo, hi ^ lo ^ 0x55u8]
}

/// The colour at `hue` on a wheel of six sectors of 256 steps each: red,
/// yellow, green, cyan, blue, magenta and back to red. In each sector one
/// channel is full, one is off, and the third rises or falls with the
/// step within the sector.
pub open spec fn wheel(hue: int) -> (int, int, int) {
    let step = hue % 256;
    let sector = (hue / 256) % 6;
    if sector == 0 {
        (255, step, 0)
    } else if sector == 1 {
        (255 - step, 255, 0)
    } else if sector == 2 {
        (0, 255, step)
    } else if sector == 3 {
        (0, 255 - step, 255)
    } else if sector == 4 {
        (step, 0, 255)
    } else {
        (255, 0, 255 - step)
    }
}

/// A frame for `n_leds` LEDs with every LED off.
pub open spec fn blank_frame(n_leds: int) -> Seq<u8> {
    header_bytes(n_leds) + Seq::new((3 * n_leds) as nat, |i: int| 0u8)
}

/// Computes the header of a frame.
pub fn header(n_leds: usize) -> (h: [u8; 6])
    requires
        1 <= n_leds <= MAX_LEDS,
    ensures
        h@ == header_bytes(n_leds as int),
{
    let count: u32 = (n_leds - 1) as u32;
    assert(count >> 8 == count / 256) by (bit_vector);
    assert(count & 0xff == count % 256) by (bit_vector);
    let hi = (count >> 8) as u8;
    let lo = (count & 0xff) as u8;
    let h = [0x41u8, 0x64u8, 0x61u8, hi, lo, hi ^ lo ^ 0x55u8];
    assert(h@ =~= header_bytes(n_leds as int));
    h
}

/// Computes the colour at `hue` on the wheel.
pub fn hue_to_rgb(hue: u16) -> (rgb: (u8, u8, u8))
    ensures
        (rgb.0 as int, rgb.1 as int, rgb.2 as int) == wheel(hue as int),
{
    assert(hue & 255 == hue % 256) by (bit_vector);
    assert(hue >> 8 == hue / 256) by (bit_vector);
    let step = (hue & 255) as u8;
    match (hue >> 8) % 6 {
        0 => (255, step, 0),
        1 => (255 - step, 255, 0),
        2 => (0, 255, step),
        3 => (0, 255 - step, 255),
        4 => (step, 0, 255),
        _ => (255, 0, 255 - step),
    }
}

/// Builds a frame for `n_leds` LEDs with every LED off.
pub fn new_frame(n_leds: usize) -> (frame: Vec<u8>)
    requires
        1 <= n_leds <= MAX_LEDS,
    ensures
        frame@ == blank_frame(n_leds as int),
        frame@.len() == frame_len(n_leds as int),
{
    let h = header(n_leds);
    let mut frame: Vec<u8> = Vec::new();
    let mut i: usize = 0;
    while i < HEADER_LEN
        invariant
            i <= HEADER_LEN,
            h@.len() == 6,
            frame@ == h@.subrange(0, i as int),
        decreases HEADER_LEN - i,
    {
        frame.push(h[i]);
        assert(frame@ =~= h@.subrange(0, i + 1));
        i += 1;
    }
    assert(frame@ =~= h@);
    let total: usize = PIXEL_LEN * n_leds;
    let mut k: usize = 0;
    while k < total
        invariant
            k <= total,
            frame@ == h@ + Seq::new(k as nat, |i: int| 0u8),
        decreases total - k,
    {
        frame.push(0);
        assert(frame@ =~= h@ + Seq::new((k + 1) as nat, |i: int| 0u8));
        k += 1;
    }
    frame
}

/// Writes the colour of one LED into a frame. Only the three bytes of that
/// LED change.
pub fn set_pixel(frame: &mut Vec<u8>, led: usize, rgb: (u8, u8, u8))
    requires
        frame_len(led as int + 1) <= old(frame)@.len(),
    ensures
        final(frame)@ == old(frame)@.update(frame_len(led as int), rgb.0).update(
            frame_len(led as int) + 1,
            rgb.1,
        ).update(frame_len(led as int) + 2, rgb.2),
{
    let len = frame.len();
    assert(6 + 3 * (led + 1) <= len);
    let at: usize = HEADER_LEN + PIXEL_LEN * led;
    frame[at] = rgb.0;
    frame[at + 1] = rgb.1;
    frame[at + 2] = rgb.2;
}

} // verus!
