//! Pixels and their encoding into the serial waveform of the LED chain.
//!
//! The chain reads one wire. Each bit is a pulse whose width tells a one
//! from a zero, and a long pause latches the frame. The pulses are made by
//! a serial bus that runs at a fixed clock: every byte sent draws two
//! pulses, so one byte stands for two bits of a channel.

use vstd::arithmetic::div_mod::{lemma_fundamental_div_mod, lemma_fundamental_div_mod_converse};
use vstd::prelude::*;

verus! {

/// Zero bytes before and after the pixel data: the pause that latches a frame.
pub const RESET_BYTES: usize = 64;

/// Bytes on the wire for one pixel: four channels of four bytes.
pub const BYTES_PER_LED: usize = 16;

/// One RGBW pixel. All channels zero is off.
#[derive(Clone, Copy, Debug, PartialEq, Eq, Structural)]
pub struct Led {
    pub red: u8,
    pub green: u8,
    pub blue: u8,
    pub white: u8,
}

impl Led {
    /// The pixel with every channel at zero.
    pub open spec fn off() -> Led {
        Led { red: 0, green: 0, blue: 0, white: 0 }
    }
}

impl Default for Led {
    fn default() -> (led: Led)
        ensures
            led == Led::off(),
    {
        Led { red: 0, green: 0, blue: 0, white: 0 }
    }
}

/// The byte that draws the two pulses of a bit pair.
pub open spec fn template(pair: int) -> u8 {
    if pair == 0 {
        0x88
    } else if pair == 1 {
        0x8c
    } else if pair == 2 {
        0xc8
    } else {
        0xcc
    }
}

/// The bit pair that a byte on the wire stands for, if it is one of the four templates.
pub open spec fn pair_of_template(byte: u8) -> Option<int> {
    if byte == 0x88 {
        Some(0int)
    } else if byte == 0x8c {
        Some(1int)
    } else if byte == 0xc8 {
        Some(2int)
    } else if byte == 0xcc {
        Some(3int)
    } else {
        None
    }
}

/// Bit pair `i` of a channel value, the most significant pair first.
pub open spec fn bit_pair(value: u8, i: int) -> int {
    if i == 0 {
        value as int / 64
    } else if i == 1 {
        (value as int / 16) % 4
    } else if i == 2 {
        (value as int / 4) % 4
    } else {
        value as int % 4
    }
}

/// The four bytes on the wire for one channel value.
pub open spec fn channel_bytes(value: u8) -> Seq<u8> {
    Seq::new(4, |i: int| template(bit_pair(value, i)))
}

/// The channel value that four bytes on the wire stand for. Bytes that are
/// not templates stand for nothing.
pub open spec fn channel_value(word: Seq<u8>) -> Option<u8> {
    if word.len() == 4 && pair_of_template(word[0]) is Some && pair_of_template(word[1]) is Some
        && pair_of_template(word[2]) is Some && pair_of_template(word[3]) is Some {
        Some(
            (pair_of_template(word[0]).unwrap() * 64 + pair_of_template(word[1]).unwrap() * 16
                + pair_of_template(word[2]).unwrap() * 4 + pair_of_template(
                word[3],
            ).unwrap()) as u8,
        )
    } else {
        None
    }
}

/// Decoding the bytes of a channel value gives the value back.
pub proof fn lemma_channel_round_trip(value: u8)
    ensures
        channel_value(channel_bytes(value)) == Some(value),
{
}

/// Only the bytes of a channel value decode to it: together with the
/// round trip, values and valid words correspond one to one.
pub proof fn lemma_channel_unique(word: Seq<u8>, value: u8)
    requires
        channel_value(word) == Some(value),
    ensures
        word == channel_bytes(value),
{
    assert(word =~= channel_bytes(value));
}

/// The sixteen bytes on the wire for one pixel: green, red, blue, white.
pub open spec fn pixel_bytes(led: Led) -> Seq<u8> {
    channel_bytes(led.green) + channel_bytes(led.red) + channel_bytes(led.blue) + channel_bytes(
        led.white,
    )
}

/// The four bytes on the wire for one channel value.
pub struct LedByte(pub [u8; 4]);

impl LedByte {
    /// The template of a bit pair.
    fn template_of(pair: u8) -> (byte: u8)
        requires
            pair < 4,
        ensures
            byte == template(pair as int),
    {
        if pair == 0 {
            0x88
        } else if pair == 1 {
            0x8c
        } else if pair == 2 {
            0xc8
        } else {
            0xcc
        }
    }

    /// Encodes a channel value: one template byte for each bit pair, the
    /// most significant pair first.
    pub fn from_byte(b: u8) -> (word: LedByte)
        ensures
            word.0@ == channel_bytes(b),
    {
        assert((b >> 6) & 0x3 == b / 64) by (bit_vector);
        assert((b >> 4) & 0x3 == (b / 16) % 4) by (bit_vector);
        assert((b >> 2) & 0x3 == (b / 4) % 4) by (bit_vector);
        assert(b & 0x3 == b % 4) by (bit_vector);
        let l = [
            Self::template_of((b >> 6) & 0x3),
            Self::template_of((b >> 4) & 0x3),
            Self::template_of((b >> 2) & 0x3),
            Self::template_of(b & 0x3),
        ];
        assert(l@ =~= channel_bytes(b));
        LedByte(l)
    }

    /// The bit pair of a template byte.
    fn pair_of(byte: u8) -> (pair: Option<u8>)
        ensures
            match pair {
                Some(p) => pair_of_template(byte) == Some(p as int),
                None => pair_of_template(byte) is None,
            },
    {
        if byte == 0x88 {
            Some(0)
        } else if byte == 0x8c {
            Some(1)
        } else if byte == 0xc8 {
            Some(2)
        } else if byte == 0xcc {
            Some(3)
        } else {
            None
        }
    }

    /// Decodes the channel value, `None` if a byte is not a template.
    pub fn to_byte(&self) -> (value: Option<u8>)
        ensures
            value == channel_value(self.0@),
    {
        match (
            Self::pair_of(self.0[0]),
            Self::pair_of(self.0[1]),
            Self::pair_of(self.0[2]),
            Self::pair_of(self.0[3]),
        ) {
            (Some(a), Some(b), Some(c), Some(d)) => Some(a * 64 + b * 16 + c * 4 + d),
            _ => None,
        }
    }
}

/// The physical slot of the pixel with logical index `index` on a square
/// panel of `cols` columns.
///
/// Logical indices run row by row. The chain runs column by column, up one
/// column and down the next: with `x = index % cols` and `y = index / cols`,
/// the columns with even `x` are wired from `y = 0` on, those with odd `x`
/// from `y = cols - 1` on.
pub open spec fn zigzag(index: int, cols: int) -> int {
    let x = index % cols;
    let y = index / cols;
    if x % 2 == 0 {
        x * cols + y
    } else {
        (x + 1) * cols - y - 1
    }
}

/// The logical index of the pixel in physical slot `slot`: the inverse of [`zigzag`].
pub open spec fn unzigzag(slot: int, cols: int) -> int {
    let x = slot / cols;
    let r = slot % cols;
    let y = if x % 2 == 0 {
        r
    } else {
        cols - 1 - r
    };
    y * cols + x
}

/// Quotient and remainder of a number below `cols * cols` are both below `cols`.
pub proof fn lemma_square_coordinates(i: int, cols: int)
    requires
        cols > 0,
        0 <= i < cols * cols,
    ensures
        0 <= i / cols < cols,
        0 <= i % cols < cols,
        i == (i / cols) * cols + i % cols,
{
    lemma_fundamental_div_mod(i, cols);
    let q = i / cols;
    assert(q * cols == cols * q) by (nonlinear_arith);
    assert(0 <= q < cols) by (nonlinear_arith)
        requires
            cols > 0,
            0 <= i < cols * cols,
            i == cols * q + i % cols,
            0 <= i % cols < cols,
    ;
}

/// A column `x` and a place `r` in it, both below `cols`, make a number
/// below `cols * cols` whose quotient is `x` and whose remainder is `r`.
pub proof fn lemma_square_compose(x: int, r: int, cols: int)
    requires
        cols > 0,
        0 <= x < cols,
        0 <= r < cols,
    ensures
        0 <= x * cols + r < cols * cols,
        (x * cols + r) / cols == x,
        (x * cols + r) % cols == r,
{
    assert(0 <= x * cols + r < cols * cols) by (nonlinear_arith)
        requires
            cols > 0,
            0 <= x < cols,
            0 <= r < cols,
    ;
    lemma_fundamental_div_mod_converse(x * cols + r, cols, x, r);
}

/// The remap keeps every pixel on the panel, and [`unzigzag`] undoes it:
/// no two logical indices share a slot.
pub proof fn lemma_zigzag_inverse(index: int, cols: int)
    requires
        cols > 0,
        0 <= index < cols * cols,
    ensures
        0 <= zigzag(index, cols) < cols * cols,
        unzigzag(zigzag(index, cols), cols) == index,
{
    lemma_square_coordinates(index, cols);
    let x = index % cols;
    let y = index / cols;
    if x % 2 == 0 {
        lemma_square_compose(x, y, cols);
    } else {
        lemma_square_compose(x, cols - 1 - y, cols);
        assert((x + 1) * cols - y - 1 == x * cols + (cols - 1 - y)) by (nonlinear_arith);
    }
}

/// Every slot of the panel is the slot of one logical index, which
/// [`unzigzag`] names: the remap reaches every slot.
pub proof fn lemma_unzigzag_inverse(slot: int, cols: int)
    requires
        cols > 0,
        0 <= slot < cols * cols,
    ensures
        0 <= unzigzag(slot, cols) < cols * cols,
        zigzag(unzigzag(slot, cols), cols) == slot,
{
    lemma_square_coordinates(slot, cols);
    let x = slot / cols;
    let r = slot % cols;
    let y = if x % 2 == 0 {
        r
    } else {
        cols - 1 - r
    };
    lemma_square_compose(y, x, cols);
    if x % 2 != 0 {
        assert((x + 1) * cols - y - 1 == x * cols + r) by (nonlinear_arith)
            requires
                y == cols - 1 - r,
        ;
    }
}

/// The remap is one to one on the panel: two logical indices with the same
/// slot are the same index.
pub proof fn lemma_zigzag_injective(i: int, j: int, cols: int)
    requires
        cols > 0,
        0 <= i < cols * cols,
        0 <= j < cols * cols,
        zigzag(i, cols) == zigzag(j, cols),
    ensures
        i == j,
{
    lemma_zigzag_inverse(i, cols);
    lemma_zigzag_inverse(j, cols);
}

/// The remap is onto the panel: every slot is the slot of some logical index.
pub proof fn lemma_zigzag_surjective(slot: int, cols: int)
    requires
        cols > 0,
        0 <= slot < cols * cols,
    ensures
        exists|index: int| 0 <= index < cols * cols && #[trigger] zigzag(index, cols) == slot,
{
    lemma_unzigzag_inverse(slot, cols);
    assert(zigzag(unzigzag(slot, cols), cols) == slot);
}

/// Whether a square panel of `cols` columns has `n_leds` pixels and its
/// frame can be held in memory.
pub open spec fn panel_ok(cols: usize, n_leds: usize) -> bool {
    &&& cols > 0
    &&& cols * cols == n_leds
    &&& 2 * RESET_BYTES + BYTES_PER_LED * n_leds <= usize::MAX
}

/// Walks the pixels of a panel in logical order and tells where in the
/// frame each one belongs.
pub struct ZigZag<const N_LEDS: usize> {
    offset: usize,
    cols: usize,
}

impl<const N_LEDS: usize> ZigZag<N_LEDS> {
    #[verifier::type_invariant]
    spec fn on_panel(self) -> bool {
        &&& panel_ok(self.cols, N_LEDS)
        &&& self.offset <= N_LEDS
    }

    /// The logical index of the pixel that comes next.
    pub closed spec fn offset(&self) -> usize {
        self.offset
    }

    /// The number of columns of the panel.
    pub closed spec fn cols(&self) -> usize {
        self.cols
    }

    /// A walk that starts at the first pixel.
    pub fn new(cols: usize) -> (walk: Self)
        requires
            panel_ok(cols, N_LEDS),
        ensures
            walk.offset() == 0,
            walk.cols() == cols,
    {
        ZigZag { offset: 0, cols }
    }

    /// Yields the place in the frame of the first byte of the next pixel,
    /// and moves on. After the last pixel it yields nothing and stays.
    pub fn next(&mut self) -> (start: Option<usize>)
        ensures
            panel_ok(old(self).cols(), N_LEDS),
            old(self).offset() <= N_LEDS,
            final(self).cols() == old(self).cols(),
            old(self).offset() < N_LEDS ==> start == Some(
                (RESET_BYTES + BYTES_PER_LED * zigzag(
                    old(self).offset() as int,
                    old(self).cols() as int,
                )) as usize,
            ) && final(self).offset() == old(self).offset() + 1,
            old(self).offset() >= N_LEDS ==> start is None && final(self).offset() == old(
                self,
            ).offset(),
    {
        proof {
            use_type_invariant(&*self);
        }
        if self.offset < N_LEDS {
            proof {
                lemma_square_coordinates(self.offset as int, self.cols as int);
                lemma_zigzag_inverse(self.offset as int, self.cols as int);
            }
            let x = self.offset % self.cols;
            let y = self.offset / self.cols;
            assert((x + 1) * self.cols <= self.cols * self.cols) by (nonlinear_arith)
                requires
                    0 <= x < self.cols,
            ;
            assert(x * self.cols <= self.cols * self.cols) by (nonlinear_arith)
                requires
                    0 <= x < self.cols,
            ;
            let mut o = if x % 2 == 0 {
                x * self.cols + y
            } else {
                (x + 1) * self.cols - y - 1
            };
            o = o * BYTES_PER_LED;
            o = o + RESET_BYTES;
            self.offset += 1;
            Some(o)
        } else {
            None
        }
    }
}

/// Pixel `i` of a picture that starts with `pixels` and goes on with `rest` for ever.
pub open spec fn pixel_at(pixels: Seq<Led>, rest: Led, i: int) -> Led {
    if 0 <= i < pixels.len() {
        pixels[i]
    } else {
        rest
    }
}

/// The frame of a panel of `cols` columns on which the first `done` pixels
/// of the picture have been drawn and the others are still blank.
///
/// A frame is the pause, sixteen bytes for each slot of the chain, and the
/// pause again. A slot holds the pixel whose logical index the remap sends
/// there.
pub open spec fn frame_upto(pixels: Seq<Led>, rest: Led, cols: int, done: int) -> Seq<u8> {
    Seq::new(
        (2 * RESET_BYTES + BYTES_PER_LED * (cols * cols)) as nat,
        |k: int|
            if RESET_BYTES <= k < RESET_BYTES + BYTES_PER_LED * (cols * cols) && unzigzag(
                (k - RESET_BYTES) / (BYTES_PER_LED as int),
                cols,
            ) < done {
                pixel_bytes(
                    pixel_at(
                        pixels,
                        rest,
                        unzigzag((k - RESET_BYTES) / (BYTES_PER_LED as int), cols),
                    ),
                )[(k - RESET_BYTES) % (BYTES_PER_LED as int)]
            } else {
                0u8
            },
    )
}

/// The frame that shows the whole picture on a panel of `cols` columns.
pub open spec fn frame_of(pixels: Seq<Led>, rest: Led, cols: int) -> Seq<u8> {
    frame_upto(pixels, rest, cols, cols * cols)
}

/// In a frame the sixteen bytes at the slot of logical index `index` are
/// the bytes of that pixel of the picture.
pub proof fn lemma_frame_pixel(pixels: Seq<Led>, rest: Led, cols: int, index: int)
    requires
        cols > 0,
        0 <= index < cols * cols,
    ensures
        RESET_BYTES + BYTES_PER_LED * zigzag(index, cols) + BYTES_PER_LED <= frame_of(
            pixels,
            rest,
            cols,
        ).len() - RESET_BYTES,
        frame_of(pixels, rest, cols).subrange(
            RESET_BYTES + BYTES_PER_LED * zigzag(index, cols),
            RESET_BYTES + BYTES_PER_LED * zigzag(index, cols) + BYTES_PER_LED,
        ) == pixel_bytes(pixel_at(pixels, rest, index)),
{
    lemma_zigzag_inverse(index, cols);
    let start = RESET_BYTES + BYTES_PER_LED * zigzag(index, cols);
    assert(frame_of(pixels, rest, cols).subrange(start, start + BYTES_PER_LED) =~= pixel_bytes(
        pixel_at(pixels, rest, index),
    ));
}

/// A frame opens and closes with the pause: `RESET_BYTES` zero bytes at either end.
pub proof fn lemma_frame_pause(pixels: Seq<Led>, rest: Led, cols: int, k: int)
    requires
        cols > 0,
        0 <= k < RESET_BYTES || RESET_BYTES + BYTES_PER_LED * (cols * cols) <= k < 2 * RESET_BYTES
            + BYTES_PER_LED * (cols * cols),
    ensures
        frame_of(pixels, rest, cols).len() == 2 * RESET_BYTES + BYTES_PER_LED * (cols * cols),
        frame_of(pixels, rest, cols)[k] == 0,
{
    assert(cols * cols >= 0) by (nonlinear_arith);
}

/// Writes the four bytes of a channel value into `data` from `at` on.
fn put_channel(data: &mut Vec<u8>, at: usize, value: u8)
    requires
        at + 4 <= old(data)@.len() <= usize::MAX,
    ensures
        final(data)@.len() == old(data)@.len(),
        forall|k: int|
            0 <= k < old(data)@.len() ==> #[trigger] final(data)@[k] == if at <= k < at + 4 {
                channel_bytes(value)[k - at]
            } else {
                old(data)@[k]
            },
{
    let word = LedByte::from_byte(value);
    data.set(at, word.0[0]);
    data.set(at + 1, word.0[1]);
    data.set(at + 2, word.0[2]);
    data.set(at + 3, word.0[3]);
}

/// Writes the sixteen bytes of a pixel into `data` from `at` on.
fn put_pixel(data: &mut Vec<u8>, at: usize, led: Led)
    requires
        at + BYTES_PER_LED <= old(data)@.len() <= usize::MAX,
    ensures
        final(data)@.len() == old(data)@.len(),
        forall|k: int|
            0 <= k < old(data)@.len() ==> #[trigger] final(data)@[k] == if at <= k < at
                + BYTES_PER_LED {
                pixel_bytes(led)[k - at]
            } else {
                old(data)@[k]
            },
{
    put_channel(data, at, led.green);
    put_channel(data, at + 4, led.red);
    put_channel(data, at + 8, led.blue);
    put_channel(data, at + 12, led.white);
}

/// Encoder for a square panel of `N_LEDS` pixels.
pub struct Leds<const N_LEDS: usize> {
    cols: usize,
}

impl<const N_LEDS: usize> Leds<N_LEDS> {
    #[verifier::type_invariant]
    spec fn square(self) -> bool {
        panel_ok(self.cols, N_LEDS)
    }

    /// The number of columns of the panel.
    pub closed spec fn cols(&self) -> usize {
        self.cols
    }

    /// An encoder for a panel of `cols` columns and as many rows.
    pub fn new(cols: usize) -> (leds: Self)
        requires
            panel_ok(cols, N_LEDS),
        ensures
            leds.cols() == cols,
    {
        Leds { cols }
    }

    /// The frame of the picture that starts with `pixels` and goes on with `rest`.
    fn encode(&self, pixels: &[Led], rest: Led) -> (frame: Vec<u8>)
        ensures
            panel_ok(self.cols(), N_LEDS),
            frame@ == frame_of(pixels@, rest, self.cols() as int),
    {
        proof {
            use_type_invariant(self);
        }
        let ghost cols = self.cols as int;
        let mut data: Vec<u8> = vec![0u8; 2 * RESET_BYTES + BYTES_PER_LED * N_LEDS];
        assert(data@ =~= frame_upto(pixels@, rest, cols, 0)) by {
            assert forall|k: int| 0 <= k < data@.len() implies data@[k] == frame_upto(
                pixels@,
                rest,
                cols,
                0,
            )[k] by {
                if RESET_BYTES <= k < RESET_BYTES + BYTES_PER_LED * (cols * cols) {
                    lemma_unzigzag_inverse((k - RESET_BYTES) / (BYTES_PER_LED as int), cols);
                }
            }
        }
        let mut chunks = ZigZag::<N_LEDS>::new(self.cols);
        let mut i: usize = 0;
        loop
            invariant_except_break
                panel_ok(self.cols, N_LEDS),
                cols == self.cols,
                chunks.cols() == self.cols,
                chunks.offset() == i,
                i <= N_LEDS,
                data@ == frame_upto(pixels@, rest, cols, i as int),
            ensures
                data@ == frame_of(pixels@, rest, cols),
            decreases N_LEDS - i,
        {
            match chunks.next() {
                Some(at) => {
                    let led = if i < pixels.len() {
                        pixels[i]
                    } else {
                        rest
                    };
                    proof {
                        lemma_zigzag_inverse(i as int, cols);
                    }
                    let ghost before = data@;
                    put_pixel(&mut data, at, led);
                    assert(data@ =~= frame_upto(pixels@, rest, cols, i + 1)) by {
                        assert forall|k: int| 0 <= k < data@.len() implies data@[k] == frame_upto(
                            pixels@,
                            rest,
                            cols,
                            i + 1,
                        )[k] by {
                            if RESET_BYTES <= k < RESET_BYTES + BYTES_PER_LED * (cols * cols) {
                                lemma_unzigzag_inverse(
                                    (k - RESET_BYTES) / (BYTES_PER_LED as int),
                                    cols,
                                );
                            }
                        }
                    }
                    i += 1;
                },
                None => {
                    break ;
                },
            }
        }
        data
    }

    /// Encodes a picture into the frame that shows it.
    ///
    /// Pixels are given in logical order, row by row. Where fewer than
    /// `N_LEDS` are given the rest of the panel is off; pixels beyond
    /// `N_LEDS` are not shown.
    pub fn update(&self, pixels: &[Led]) -> (frame: Vec<u8>)
        ensures
            frame@ == frame_of(pixels@, Led::off(), self.cols() as int),
            frame@.len() == 2 * RESET_BYTES + BYTES_PER_LED * N_LEDS,
    {
        self.encode(pixels, Led::default())
    }

    /// The frame that shows `led` on every pixel of the panel.
    pub fn fill(&self, led: Led) -> (frame: Vec<u8>)
        ensures
            frame@ == frame_of(Seq::empty(), led, self.cols() as int),
            frame@.len() == 2 * RESET_BYTES + BYTES_PER_LED * N_LEDS,
    {
        let none: Vec<Led> = Vec::new();
        self.encode(none.as_slice(), led)
    }
}

} // verus!
