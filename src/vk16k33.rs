//! Wire format of the VK16K33 display controller.
//!
//! Each function appends the bus writes that it stands for to an outbox, one
//! byte sequence per write; whoever owns the bus sends them, in order, to
//! `VK16K33`.
use vstd::prelude::*;

verus! {

/// Seven-bit bus address of the display controller.
pub const VK16K33: u8 = 0b1110000;

/// System setup: oscillator on.
pub const SYSTEM_SETUP: u8 = 0b00100001;

/// Display setup with the display bit clear: display off.
pub const DISPLAY_OFF: u8 = 0b10000000;

/// Display setup: display on, no blinking.
pub const DISPLAY_ON: u8 = 0b10000001;

/// ROW/INT select: row-driver output.
pub const ROW_OUTPUT: u8 = 0b10100000;

/// Dimming set at the brightest of its sixteen levels.
pub const DIM_MAX: u8 = 0b11101111;

/// Number of digit cells of the display.
pub const DIGITS: usize = 4;

/// The byte sequences of an outbox of bus writes.
pub open spec fn frames(out: Seq<Vec<u8>>) -> Seq<Seq<u8>> {
    out.map_values(|f: Vec<u8>| f@)
}

/// The write that sets the segments of digit `index` to `mask`: the digit's
/// first register address, then the mask's low and high byte.
pub open spec fn digit_frame(mask: u16, index: u8) -> Seq<u8> {
    seq![(index * 2) as u8, (mask % 256) as u8, (mask / 256) as u8]
}

/// The start-up writes, in order.
pub open spec fn init_frames() -> Seq<Seq<u8>> {
    seq![seq![SYSTEM_SETUP], seq![DISPLAY_ON], seq![ROW_OUTPUT], seq![DIM_MAX]]
}

/// The writes that blank every digit, in digit order.
pub open spec fn clear_frames() -> Seq<Seq<u8>> {
    Seq::new(DIGITS as nat, |i: int| digit_frame(0, i as u8))
}

fn send(out: &mut Vec<Vec<u8>>, frame: Vec<u8>)
    ensures
        frames(final(out)@) == frames(old(out)@).push(frame@),
{
    out.push(frame);
    assert(frames(out@) =~= frames(old(out)@).push(frame@));
}

fn command(out: &mut Vec<Vec<u8>>, byte: u8)
    ensures
        frames(final(out)@) == frames(old(out)@).push(seq![byte]),
{
    let frame = vec![byte];
    assert(frame@ =~= seq![byte]);
    send(out, frame);
}

/// Starts the controller: oscillator, display on, row output, full
/// brightness, each a write of its own.
pub fn init(out: &mut Vec<Vec<u8>>)
    ensures
        frames(final(out)@) == frames(old(out)@) + init_frames(),
{
    command(out, SYSTEM_SETUP);
    command(out, DISPLAY_ON);
    command(out, ROW_OUTPUT);
    command(out, DIM_MAX);
    assert(frames(out@) =~= frames(old(out)@) + init_frames());
}

/// Turns the display off.
pub fn disp_off(out: &mut Vec<Vec<u8>>)
    ensures
        frames(final(out)@) == frames(old(out)@).push(seq![DISPLAY_OFF]),
{
    command(out, DISPLAY_OFF);
}

/// Turns the display on.
pub fn disp_on(out: &mut Vec<Vec<u8>>)
    ensures
        frames(final(out)@) == frames(old(out)@).push(seq![DISPLAY_ON]),
{
    command(out, DISPLAY_ON);
}

/// Blanks the four digits, in digit order.
pub fn clear(out: &mut Vec<Vec<u8>>)
    ensures
        frames(final(out)@) == frames(old(out)@) + clear_frames(),
{
    let mut i: u8 = 0;
    while i < 4
        invariant
            i <= 4,
            frames(out@) == frames(old(out)@) + clear_frames().take(i as int),
        decreases 4 - i,
    {
        draw_glyph(out, 0, i);
        assert(clear_frames().take(i + 1) =~= clear_frames().take(i as int).push(digit_frame(0, i)));
        i = i + 1;
    }
    assert(clear_frames().take(4) =~= clear_frames());
}

/// Sets the segments of digit `index` to `glyph`.
pub fn draw_glyph(out: &mut Vec<Vec<u8>>, glyph: u16, index: u8)
    requires
        index < DIGITS,
    ensures
        frames(final(out)@) == frames(old(out)@).push(digit_frame(glyph, index)),
{
    let low = (glyph & 0xff) as u8;
    let high = (glyph >> 8) as u8;
    assert(glyph & 0xff == glyph % 256) by (bit_vector);
    assert(glyph >> 8 == glyph / 256) by (bit_vector);
    send(out, vec![index * 2, low, high]);
}

} // verus!
