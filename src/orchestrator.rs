//! What the display shows and when it is redrawn: the buffer of four glyphs,
//! refreshed from smoothed samples and rendered on every timer tick.
use crate::glyph::{glyph_of, lemma_numeral_supported, Glyph, Symbols};
use crate::smoother::{step, Smoother};
use crate::text::{numeral, right_aligned, WIDTH};
use crate::vk16k33::{clear, clear_frames, digit_frame, draw_glyph, frames, init, init_frames};
use vstd::prelude::*;

verus! {

/// Ticks in one cycle of the slow tick counter.
pub const SLOW_CYCLE: u8 = 5;

/// The glyphs of an ASCII text, one per byte.
pub open spec fn text_glyphs(text: Seq<u8>) -> Seq<Glyph> {
    text.map_values(|b: u8| glyph_of(b as char))
}

/// The writes that render `glyphs`, one per digit, in digit order.
pub open spec fn render_frames(glyphs: Seq<Glyph>) -> Seq<Seq<u8>> {
    Seq::new(glyphs.len(), |i: int| digit_frame(glyphs[i].spec_mask(), i as u8))
}

/// The glyphs that show `value`: right-aligned, padded with blanks.
pub open spec fn value_glyphs(value: nat) -> Seq<Glyph> {
    text_glyphs(right_aligned(value, WIDTH as nat))
}

/// The display buffer, the slow tick counter and the sample window.
pub struct Orchestrator {
    to_draw: [Glyph; 4],
    count: u8,
    smoother: Smoother,
}

impl Orchestrator {
    /// The glyphs to draw, left to right.
    pub closed spec fn spec_buffer(&self) -> Seq<Glyph> {
        self.to_draw@
    }

    /// Ticks since the slow counter last wrapped.
    pub closed spec fn spec_count(&self) -> nat {
        self.count as nat
    }

    /// The samples of the unfinished window.
    pub closed spec fn pending(&self) -> Seq<u16> {
        self.smoother@
    }

    /// The counter stays below its cycle and the window is well formed.
    pub closed spec fn wf(&self) -> bool {
        self.count < SLOW_CYCLE && self.smoother.wf()
    }

    /// A blank display, a counter at zero and an empty window.
    pub fn new() -> (res: Orchestrator)
        ensures
            res.wf(),
            res.spec_buffer() == Seq::new(4, |i: int| Glyph::Symbols(Symbols::Space)),
            res.spec_count() == 0,
            res.pending() == Seq::<u16>::empty(),
    {
        let blank = Glyph::Symbols(Symbols::Space);
        let res = Orchestrator { to_draw: [blank; 4], count: 0, smoother: Smoother::new() };
        assert(res.spec_buffer() =~= Seq::new(4, |i: int| Glyph::Symbols(Symbols::Space)));
        res
    }

    /// The glyphs to draw, left to right.
    pub fn buffer(&self) -> (res: [Glyph; 4])
        ensures
            res@ == self.spec_buffer(),
    {
        self.to_draw
    }

    /// Ticks since the slow counter last wrapped.
    pub fn count(&self) -> (res: u8)
        ensures
            res == self.spec_count(),
    {
        self.count
    }

    /// Replaces the whole buffer with the glyphs of `value`, right-aligned.
    pub fn show(&mut self, value: u16)
        requires
            old(self).wf(),
            value < 10000,
        ensures
            final(self).wf(),
            final(self).spec_buffer() == value_glyphs(value as nat),
            final(self).spec_count() == old(self).spec_count(),
            final(self).pending() == old(self).pending(),
    {
        let text = numeral(value);
        let mut i: usize = 0;
        while i < WIDTH
            invariant
                i <= WIDTH,
                text@ == right_aligned(value as nat, WIDTH as nat),
                text@.len() == WIDTH,
                forall|j: int| 0 <= j < WIDTH ==> #[trigger] text@[j] == 0x20 || 0x30 <= text@[j]
                    <= 0x39,
                self.wf(),
                self.count == old(self).count,
                self.smoother == old(self).smoother,
                forall|j: int| 0 <= j < i ==> #[trigger] self.to_draw@[j] == glyph_of(
                    text@[j] as char,
                ),
            decreases WIDTH - i,
        {
            let c = text[i] as char;
            proof {
                assert(text@[i as int] == 0x20 || 0x30 <= text@[i as int] <= 0x39);
                lemma_numeral_supported(c);
            }
            self.to_draw[i] = Glyph::from(c);
            i = i + 1;
        }
        assert(self.spec_buffer() =~= value_glyphs(value as nat));
    }

    /// Takes one raw sample. Where it completes a window, the smoothed value
    /// replaces the buffer and is returned.
    pub fn on_sample(&mut self, raw: u16) -> (res: Option<u16>)
        requires
            old(self).wf(),
        ensures
            final(self).wf(),
            (final(self).pending(), res) == step(old(self).pending(), raw),
            res matches Some(v) ==> final(self).spec_buffer() == value_glyphs(v as nat),
            res is None ==> final(self).spec_buffer() == old(self).spec_buffer(),
            final(self).spec_count() == old(self).spec_count(),
    {
        let res = self.smoother.push_sample(raw);
        if let Some(v) = res {
            self.show(v);
        }
        res
    }

    /// Brings the controller up and blanks it: the start-up writes, then a
    /// blank for each digit.
    pub fn start(&self, out: &mut Vec<Vec<u8>>)
        ensures
            frames(final(out)@) == frames(old(out)@) + init_frames() + clear_frames(),
    {
        init(out);
        clear(out);
    }

    /// One timer tick: draws every digit of the buffer, in digit order, and
    /// advances the slow counter.
    pub fn tick(&mut self, out: &mut Vec<Vec<u8>>)
        requires
            old(self).wf(),
        ensures
            final(self).wf(),
            frames(final(out)@) == frames(old(out)@) + render_frames(old(self).spec_buffer()),
            final(self).spec_count() == (old(self).spec_count() + 1) % (SLOW_CYCLE as nat),
            final(self).spec_buffer() == old(self).spec_buffer(),
            final(self).pending() == old(self).pending(),
    {
        let mut i: usize = 0;
        while i < 4
            invariant
                i <= 4,
                frames(out@) == frames(old(out)@) + render_frames(self.spec_buffer()).take(
                    i as int,
                ),
            decreases 4 - i,
        {
            let mask = self.to_draw[i].mask();
            draw_glyph(out, mask, i as u8);
            assert(render_frames(self.spec_buffer()).take(i + 1) =~= render_frames(
                self.spec_buffer(),
            ).take(i as int).push(digit_frame(mask, i as u8)));
            i = i + 1;
        }
        assert(render_frames(self.spec_buffer()).take(4) =~= render_frames(self.spec_buffer()));
        self.count = if self.count + 1 >= SLOW_CYCLE {
            0
        } else {
            self.count + 1
        };
    }
}

} // verus!
