//! Right-aligned decimal text of a number, as ASCII bytes.
use core::fmt::Write as FmtWrite;
use vstd::prelude::*;

verus! {

/// Width of the display in characters.
pub const WIDTH: usize = 4;

/// The ASCII digits of `n` in base ten, most significant first, without
/// leading zeros.
pub open spec fn decimal(n: nat) -> Seq<u8>
    decreases n,
{
    if n < 10 {
        seq![(0x30 + n) as u8]
    } else {
        decimal(n / 10).push((0x30 + n % 10) as u8)
    }
}

/// The decimal digits of `n`, padded on the left with spaces to `width`
/// characters.
pub open spec fn right_aligned(n: nat, width: nat) -> Seq<u8> {
    Seq::new((width - decimal(n).len()) as nat, |i: int| 0x20u8) + decimal(n)
}

/// A number below ten thousand has at most four decimal digits, each an
/// ASCII digit.
pub proof fn lemma_decimal_short(n: nat)
    ensures
        n < 10 ==> decimal(n).len() == 1,
        n < 100 ==> decimal(n).len() <= 2,
        n < 1000 ==> decimal(n).len() <= 3,
        n < 10000 ==> decimal(n).len() <= 4,
        forall|i: int| 0 <= i < decimal(n).len() ==> 0x30 <= #[trigger] decimal(n)[i] <= 0x39,
    decreases n,
{
    if n >= 10 {
        lemma_decimal_short(n / 10);
    }
}

/// Relies on `core::fmt`'s `{:>4}` formatting of an integer, written into a
/// `heapless::String` of four bytes: the decimal digits, right-aligned with
/// spaces. A number below ten thousand always fits.
#[verifier::external_body]
fn format_right_aligned(value: u16) -> (res: Vec<u8>)
    requires
        value < 10000,
    ensures
        res@ == right_aligned(value as nat, 4),
{
    let mut text: heapless::String<4> = heapless::String::new();
    let _ = write!(text, "{:>4}", value);
    text.as_bytes().to_vec()
}

/// The text that shows `value` on the display: its decimal digits,
/// right-aligned in four characters.
pub fn numeral(value: u16) -> (res: Vec<u8>)
    requires
        value < 10000,
    ensures
        res@ == right_aligned(value as nat, WIDTH as nat),
        res@.len() == WIDTH,
        forall|i: int| 0 <= i < WIDTH ==> #[trigger] res@[i] == 0x20 || 0x30 <= res@[i] <= 0x39,
{
    let res = format_right_aligned(value);
    proof {
        lemma_decimal_short(value as nat);
        let pad = (4 - decimal(value as nat).len()) as nat;
        assert forall|i: int| 0 <= i < WIDTH implies #[trigger] res@[i] == 0x20 || 0x30 <= res@[i]
            <= 0x39 by {
            if i >= pad {
                assert(res@[i] == decimal(value as nat)[i - pad]);
            }
        }
    }
    res
}

} // verus!
