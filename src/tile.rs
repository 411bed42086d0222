//! 8x8 tiles in the 2-bits-per-pixel format: each row is two bytes, the
//! first giving each pixel's low colour bit and the second its high bit;
//! bit 7 is the leftmost pixel.
use vstd::prelude::*;
use crate::bus::{Bus, BusView};
use crate::utils::wrap16;

verus! {

pub const BYTES_PER_TILE: usize = 16;

/// Colour index of column `col` (0 = leftmost) of a row given by its two bytes.
pub open spec fn pixel_of(lo: u8, hi: u8, col: u8) -> u8 {
    (((hi >> (7 - col) as u8) & 1u8) << 1u8) | ((lo >> (7 - col) as u8) & 1u8)
}

/// The 64 colour indices, row by row, of the tile in `bytes`.
pub open spec fn decode_spec(bytes: Seq<u8>) -> Seq<u8> {
    Seq::new(64, |k: int| pixel_of(bytes[2 * (k / 8)], bytes[2 * (k / 8) + 1], (k % 8) as u8))
}

/// Bit `plane` of each of the eight pixels of row `r`, leftmost in bit 7.
pub open spec fn encode_byte(p: Seq<u8>, r: int, plane: u8) -> u8 {
    (((p[8 * r] >> plane) & 1u8) << 7u8) | (((p[8 * r + 1] >> plane) & 1u8) << 6u8) | (((p[8 * r
        + 2] >> plane) & 1u8) << 5u8) | (((p[8 * r + 3] >> plane) & 1u8) << 4u8) | (((p[8 * r + 4]
        >> plane) & 1u8) << 3u8) | (((p[8 * r + 5] >> plane) & 1u8) << 2u8) | (((p[8 * r + 6]
        >> plane) & 1u8) << 1u8) | ((p[8 * r + 7] >> plane) & 1u8)
}

/// The 16 bytes of the tile whose colour indices are `p`.
pub open spec fn encode_spec(p: Seq<u8>) -> Seq<u8> {
    Seq::new(16, |k: int| encode_byte(p, k / 2, (k % 2) as u8))
}

/// The 16 bytes at `addr` as the bus reads them.
pub open spec fn tile_bytes(bus: BusView, addr: u16) -> Seq<u8> {
    Seq::new(16, |i: int| bus.read(wrap16(addr + i)))
}

/// Every decoded colour index is in 0..=3.
pub proof fn lemma_pixel_range(lo: u8, hi: u8, col: u8)
    ensures
        pixel_of(lo, hi, col) < 4,
{
    let s = (7 - col) as u8;
    assert((((hi >> s) & 1u8) << 1u8) | ((lo >> s) & 1u8) < 4) by (bit_vector);
}

proof fn lemma_row_bits(b0: u8, b1: u8, b2: u8, b3: u8, b4: u8, b5: u8, b6: u8, b7: u8)
    requires
        b0 <= 1 && b1 <= 1 && b2 <= 1 && b3 <= 1 && b4 <= 1 && b5 <= 1 && b6 <= 1 && b7 <= 1,
    ensures
        ({
            let x = (b0 << 7u8) | (b1 << 6u8) | (b2 << 5u8) | (b3 << 4u8) | (b4 << 3u8) | (b5
                << 2u8) | (b6 << 1u8) | b7;
            &&& (x >> 7u8) & 1u8 == b0
            &&& (x >> 6u8) & 1u8 == b1
            &&& (x >> 5u8) & 1u8 == b2
            &&& (x >> 4u8) & 1u8 == b3
            &&& (x >> 3u8) & 1u8 == b4
            &&& (x >> 2u8) & 1u8 == b5
            &&& (x >> 1u8) & 1u8 == b6
            &&& (x >> 0u8) & 1u8 == b7
        }),
{
    let x = (b0 << 7u8) | (b1 << 6u8) | (b2 << 5u8) | (b3 << 4u8) | (b4 << 3u8) | (b5 << 2u8) | (
    b6 << 1u8) | b7;
    assert((x >> 7u8) & 1u8 == b0 && (x >> 6u8) & 1u8 == b1 && (x >> 5u8) & 1u8 == b2 && (x >> 4u8)
        & 1u8 == b3 && (x >> 3u8) & 1u8 == b4 && (x >> 2u8) & 1u8 == b5 && (x >> 1u8) & 1u8 == b6
        && (x >> 0u8) & 1u8 == b7) by (bit_vector)
        requires
            x == (b0 << 7u8) | (b1 << 6u8) | (b2 << 5u8) | (b3 << 4u8) | (b4 << 3u8) | (b5 << 2u8)
                | (b6 << 1u8) | b7,
            b0 <= 1 && b1 <= 1 && b2 <= 1 && b3 <= 1 && b4 <= 1 && b5 <= 1 && b6 <= 1 && b7 <= 1,
    ;
}

/// Bit `plane` of column `col` of the encoded row `r` is bit `plane` of that pixel.
proof fn lemma_encode_bit(p: Seq<u8>, r: int, plane: u8, col: u8)
    requires
        0 <= r < 8,
        col < 8,
        p.len() == 64,
    ensures
        (encode_byte(p, r, plane) >> (7 - col) as u8) & 1u8 == (p[8 * r + col] >> plane) & 1u8,
{
    let b0 = (p[8 * r] >> plane) & 1u8;
    let b1 = (p[8 * r + 1] >> plane) & 1u8;
    let b2 = (p[8 * r + 2] >> plane) & 1u8;
    let b3 = (p[8 * r + 3] >> plane) & 1u8;
    let b4 = (p[8 * r + 4] >> plane) & 1u8;
    let b5 = (p[8 * r + 5] >> plane) & 1u8;
    let b6 = (p[8 * r + 6] >> plane) & 1u8;
    let b7 = (p[8 * r + 7] >> plane) & 1u8;
    assert(b0 <= 1 && b1 <= 1 && b2 <= 1 && b3 <= 1 && b4 <= 1 && b5 <= 1 && b6 <= 1 && b7 <= 1)
        by {
        assert(forall|v: u8, s: u8| (v >> s) & 1u8 <= 1) by (bit_vector);
    }
    lemma_row_bits(b0, b1, b2, b3, b4, b5, b6, b7);
}

/// Decoding yields colour indices in 0..=3, and decoding the encoding of
/// any 64 colour indices in 0..=3 gives them back.
pub proof fn lemma_decode_encode(bytes: Seq<u8>, pixels: Seq<u8>)
    requires
        bytes.len() == 16,
        pixels.len() == 64,
        forall|k: int| 0 <= k < 64 ==> pixels[k] < 4,
    ensures
        forall|k: int| 0 <= k < 64 ==> #[trigger] decode_spec(bytes)[k] < 4,
        decode_spec(encode_spec(pixels)) == pixels,
{
    assert forall|k: int| 0 <= k < 64 implies #[trigger] decode_spec(bytes)[k] < 4 by {
        lemma_pixel_range(bytes[2 * (k / 8)], bytes[2 * (k / 8) + 1], (k % 8) as u8);
    }
    let e = encode_spec(pixels);
    assert forall|k: int| 0 <= k < 64 implies #[trigger] decode_spec(e)[k] == pixels[k] by {
        let r = k / 8;
        let col = (k % 8) as u8;
        assert(e[2 * r] == encode_byte(pixels, r, 0));
        assert(e[2 * r + 1] == encode_byte(pixels, r, 1));
        lemma_encode_bit(pixels, r, 0, col);
        lemma_encode_bit(pixels, r, 1, col);
        assert(8 * r + col == k);
        let v = pixels[k];
        let s = (7 - col) as u8;
        let lo = encode_byte(pixels, r, 0);
        let hi = encode_byte(pixels, r, 1);
        assert(((((hi >> s) & 1u8) << 1u8) | ((lo >> s) & 1u8)) == v) by (bit_vector)
            requires
                (hi >> s) & 1u8 == (v >> 1u8) & 1u8,
                (lo >> s) & 1u8 == (v >> 0u8) & 1u8,
                v < 4,
        ;
    }
    assert(decode_spec(e) =~= pixels);
}

/// A decoded 8x8 tile: 64 colour indices in 0..=3, row by row.
#[derive(Debug, PartialEq, Eq)]
pub struct Tile {
    pixels: Vec<u8>,
}

impl View for Tile {
    type V = Seq<u8>;

    closed spec fn view(&self) -> Seq<u8> {
        self.pixels@
    }
}

impl Tile {
    pub open spec fn wf(&self) -> bool {
        self@.len() == 64 && forall|k: int| 0 <= k < 64 ==> self@[k] < 4
    }

    /// Decodes the tile stored at `addr`.
    pub fn new(bus: &Bus, addr: u16) -> (t: Tile)
        requires
            bus@.wf(),
        ensures
            t@ == decode_spec(tile_bytes(bus@, addr)),
            t.wf(),
    {
        let bytes = Self::read(bus, addr);
        Self::decode(&bytes)
    }

    /// The 16 bytes of the tile at `addr`.
    fn read(bus: &Bus, addr: u16) -> (r: Vec<u8>)
        requires
            bus@.wf(),
        ensures
            r@ == tile_bytes(bus@, addr),
    {
        let mut bytes: Vec<u8> = Vec::new();
        let mut i: usize = 0;
        while i < BYTES_PER_TILE
            invariant
                i <= BYTES_PER_TILE,
                bus@.wf(),
                bytes@ == tile_bytes(bus@, addr).subrange(0, i as int),
            decreases BYTES_PER_TILE - i,
        {
            bytes.push(bus.read_byte(((addr as usize + i) % 65536) as u16));
            i += 1;
            assert(bytes@ =~= tile_bytes(bus@, addr).subrange(0, i as int));
        }
        assert(bytes@ =~= tile_bytes(bus@, addr));
        bytes
    }

    /// Decodes 16 tile bytes.
    pub fn decode(bytes: &Vec<u8>) -> (t: Tile)
        requires
            bytes.len() == BYTES_PER_TILE,
        ensures
            t@ == decode_spec(bytes@),
            t.wf(),
    {
        let mut pixels: Vec<u8> = Vec::new();
        let mut k: usize = 0;
        while k < 64
            invariant
                k <= 64,
                bytes.len() == BYTES_PER_TILE,
                pixels@ == decode_spec(bytes@).subrange(0, k as int),
            decreases 64 - k,
        {
            let lo = bytes[2 * (k / 8)];
            let hi = bytes[2 * (k / 8) + 1];
            let shift = 7 - (k % 8) as u8;
            pixels.push((((hi >> shift) & 1) << 1) | ((lo >> shift) & 1));
            k += 1;
            assert(pixels@ =~= decode_spec(bytes@).subrange(0, k as int));
        }
        assert(pixels@ =~= decode_spec(bytes@));
        proof {
            lemma_decode_encode(bytes@, Seq::new(64, |k: int| 0u8));
        }
        Tile { pixels }
    }

    /// A tile with the given 64 colour indices, each in 0..=3.
    pub fn from_pixels(pixels: Vec<u8>) -> (t: Tile)
        requires
            pixels.len() == 64,
            forall|k: int| 0 <= k < 64 ==> pixels@[k] < 4,
        ensures
            t@ == pixels@,
            t.wf(),
    {
        Tile { pixels }
    }

    /// The 16 bytes that store this tile.
    pub fn encode(&self) -> (r: Vec<u8>)
        requires
            self.wf(),
        ensures
            r@ == encode_spec(self@),
    {
        let mut bytes: Vec<u8> = Vec::new();
        let mut k: usize = 0;
        while k < 16
            invariant
                k <= 16,
                self.wf(),
                bytes@ == encode_spec(self@).subrange(0, k as int),
            decreases 16 - k,
        {
            let b = 8 * (k / 2);
            let plane = (k % 2) as u8;
            let p = &self.pixels;
            let byte = (((p[b] >> plane) & 1) << 7) | (((p[b + 1] >> plane) & 1) << 6) | (((p[b + 2]
                >> plane) & 1) << 5) | (((p[b + 3] >> plane) & 1) << 4) | (((p[b + 4] >> plane) & 1)
                << 3) | (((p[b + 5] >> plane) & 1) << 2) | (((p[b + 6] >> plane) & 1) << 1) | ((p[b
                + 7] >> plane) & 1);
            bytes.push(byte);
            k += 1;
            assert(bytes@ =~= encode_spec(self@).subrange(0, k as int));
        }
        assert(bytes@ =~= encode_spec(self@));
        bytes
    }

    /// Row `row` (0 = top): eight colour indices, leftmost first.
    pub fn get_row(&self, row: usize) -> (r: Vec<u8>)
        requires
            self.wf(),
            row < 8,
        ensures
            r@ == self@.subrange(8 * row as int, 8 * row + 8),
    {
        let mut out: Vec<u8> = Vec::new();
        let mut i: usize = 0;
        while i < 8
            invariant
                i <= 8,
                row < 8,
                self.wf(),
                out@ == self@.subrange(8 * row as int, 8 * row + i),
            decreases 8 - i,
        {
            out.push(self.pixels[8 * row + i]);
            i += 1;
            assert(out@ =~= self@.subrange(8 * row as int, 8 * row + i));
        }
        out
    }
}

} // verus!
