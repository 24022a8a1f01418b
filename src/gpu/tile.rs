use vstd::prelude::*;

verus! {

/// The color number (0 to 3) of pixel (x, y) of a tile, from its 16 raw
/// bytes: bit 7 - x of byte 2y gives bit 0, the same bit of byte 2y + 1
/// gives bit 1.
pub open spec fn tile_pixel(raw: Seq<u8>, y: int, x: int) -> u8 {
    let lo = raw[2 * y];
    let hi = raw[2 * y + 1];
    let s = (7 - x) as u8;
    (((hi >> s) & 1) * 2 + ((lo >> s) & 1)) as u8
}

/// The two raw bytes of a row of eight color numbers: bit 0 of each color
/// into the first byte, bit 1 into the second, leftmost pixel in bit 7.
pub open spec fn encode_row(c: Seq<u8>) -> (u8, u8) {
    (
        ((c[0] & 1) << 7u8) | ((c[1] & 1) << 6u8) | ((c[2] & 1) << 5u8) | ((c[3] & 1) << 4u8) | ((c[4]
            & 1) << 3u8) | ((c[5] & 1) << 2u8) | ((c[6] & 1) << 1u8) | (c[7] & 1),
        ((c[0] >> 1u8) << 7u8) | ((c[1] >> 1u8) << 6u8) | ((c[2] >> 1u8) << 5u8) | ((c[3] >> 1u8)
            << 4u8) | ((c[4] >> 1u8) << 3u8) | ((c[5] >> 1u8) << 2u8) | ((c[6] >> 1u8) << 1u8) | (c[7]
            >> 1u8),
    )
}

/// The decoded rows of a tile.
pub open spec fn decode_row(raw: Seq<u8>, y: int) -> Seq<u8> {
    Seq::new(8, |x: int| tile_pixel(raw, y, x))
}

proof fn lemma_row_round_trip(lo: u8, hi: u8)
    ensures
        ({
            let c = |s: u8| (((hi >> s) & 1) * 2 + ((lo >> s) & 1)) as u8;
            let e = encode_row(seq![c(7), c(6), c(5), c(4), c(3), c(2), c(1), c(0)]);
            e.0 == lo && e.1 == hi
        }),
{
    let c7 = (((hi >> 7u8) & 1) * 2 + ((lo >> 7u8) & 1)) as u8;
    let c6 = (((hi >> 6u8) & 1) * 2 + ((lo >> 6u8) & 1)) as u8;
    let c5 = (((hi >> 5u8) & 1) * 2 + ((lo >> 5u8) & 1)) as u8;
    let c4 = (((hi >> 4u8) & 1) * 2 + ((lo >> 4u8) & 1)) as u8;
    let c3 = (((hi >> 3u8) & 1) * 2 + ((lo >> 3u8) & 1)) as u8;
    let c2 = (((hi >> 2u8) & 1) * 2 + ((lo >> 2u8) & 1)) as u8;
    let c1 = (((hi >> 1u8) & 1) * 2 + ((lo >> 1u8) & 1)) as u8;
    let c0 = (((hi >> 0u8) & 1) * 2 + ((lo >> 0u8) & 1)) as u8;
    assert(((c7 & 1) << 7u8) | ((c6 & 1) << 6u8) | ((c5 & 1) << 5u8) | ((c4 & 1) << 4u8) | ((c3 & 1)
        << 3u8) | ((c2 & 1) << 2u8) | ((c1 & 1) << 1u8) | (c0 & 1) == lo) by (bit_vector)
        requires
            c7 == (((hi >> 7u8) & 1) * 2 + ((lo >> 7u8) & 1)) as u8,
            c6 == (((hi >> 6u8) & 1) * 2 + ((lo >> 6u8) & 1)) as u8,
            c5 == (((hi >> 5u8) & 1) * 2 + ((lo >> 5u8) & 1)) as u8,
            c4 == (((hi >> 4u8) & 1) * 2 + ((lo >> 4u8) & 1)) as u8,
            c3 == (((hi >> 3u8) & 1) * 2 + ((lo >> 3u8) & 1)) as u8,
            c2 == (((hi >> 2u8) & 1) * 2 + ((lo >> 2u8) & 1)) as u8,
            c1 == (((hi >> 1u8) & 1) * 2 + ((lo >> 1u8) & 1)) as u8,
            c0 == (((hi >> 0u8) & 1) * 2 + ((lo >> 0u8) & 1)) as u8,
    ;
    assert(((c7 >> 1u8) << 7u8) | ((c6 >> 1u8) << 6u8) | ((c5 >> 1u8) << 5u8) | ((c4 >> 1u8) << 4u8)
        | ((c3 >> 1u8) << 3u8) | ((c2 >> 1u8) << 2u8) | ((c1 >> 1u8) << 1u8) | (c0 >> 1u8) == hi)
        by (bit_vector)
        requires
            c7 == (((hi >> 7u8) & 1) * 2 + ((lo >> 7u8) & 1)) as u8,
            c6 == (((hi >> 6u8) & 1) * 2 + ((lo >> 6u8) & 1)) as u8,
            c5 == (((hi >> 5u8) & 1) * 2 + ((lo >> 5u8) & 1)) as u8,
            c4 == (((hi >> 4u8) & 1) * 2 + ((lo >> 4u8) & 1)) as u8,
            c3 == (((hi >> 3u8) & 1) * 2 + ((lo >> 3u8) & 1)) as u8,
            c2 == (((hi >> 2u8) & 1) * 2 + ((lo >> 2u8) & 1)) as u8,
            c1 == (((hi >> 1u8) & 1) * 2 + ((lo >> 1u8) & 1)) as u8,
            c0 == (((hi >> 0u8) & 1) * 2 + ((lo >> 0u8) & 1)) as u8,
    ;
    let c = |s: u8| (((hi >> s) & 1) * 2 + ((lo >> s) & 1)) as u8;
    assert(c(7) == c7 && c(6) == c6 && c(5) == c5 && c(4) == c4 && c(3) == c3 && c(2) == c2 && c(1)
        == c1 && c(0) == c0);
}

/// Decoding a tile's rows and encoding them again gives back its raw bytes.
pub proof fn lemma_tile_round_trip(raw: Seq<u8>, y: int)
    requires
        raw.len() == 16,
        0 <= y < 8,
    ensures
        encode_row(decode_row(raw, y)) == (raw[2 * y], raw[2 * y + 1]),
{
    let lo = raw[2 * y];
    let hi = raw[2 * y + 1];
    lemma_row_round_trip(lo, hi);
    let c = |s: u8| (((hi >> s) & 1) * 2 + ((lo >> s) & 1)) as u8;
    assert(decode_row(raw, y) =~= seq![c(7), c(6), c(5), c(4), c(3), c(2), c(1), c(0)]);
}

/// An 8x8 tile: its 16 raw bytes, two per row, and the decoded color numbers.
#[derive(Copy, Clone, Debug, PartialEq, Eq)]
pub struct Tile {
    pub raw_data: [u8; 16],
    /// The color numbers; the first index is y, the second x.
    pub data: [[u8; 8]; 8],
}

impl Tile {
    /// The decoded colors match the raw bytes.
    pub open spec fn wf(&self) -> bool {
        forall|y: int, x: int|
            0 <= y < 8 && 0 <= x < 8 ==> #[trigger] self.data@[y]@[x] == tile_pixel(self.raw_data@, y, x)
    }

    pub fn new(raw_data: [u8; 16]) -> (r: Tile)
        ensures
            r.raw_data == raw_data,
            r.wf(),
    {
        let mut new_tile = Tile { raw_data, data: [[0u8; 8]; 8] };
        new_tile.update();
        new_tile
    }

    pub fn raw_byte(&self, index: usize) -> (r: u8)
        requires
            index < 16,
        ensures
            r == self.raw_data@[index as int],
    {
        self.raw_data[index]
    }

    pub fn update_raw_byte(&mut self, index: usize, byte: u8)
        requires
            index < 16,
        ensures
            final(self).raw_data@ == old(self).raw_data@.update(index as int, byte),
            final(self).wf(),
    {
        self.raw_data[index] = byte;
        self.update();
    }

    /// Decode the color numbers from the raw bytes.
    pub fn update(&mut self)
        ensures
            final(self).raw_data == old(self).raw_data,
            final(self).wf(),
    {
        let mut y: usize = 0;
        while y < 8
            invariant
                y <= 8,
                self.raw_data == old(self).raw_data,
                forall|yy: int, x: int|
                    0 <= yy < y && 0 <= x < 8 ==> #[trigger] self.data@[yy]@[x] == tile_pixel(
                        self.raw_data@,
                        yy,
                        x,
                    ),
            decreases 8 - y,
        {
            let line_lo = self.raw_data[y * 2];
            let line_hi = self.raw_data[y * 2 + 1];
            let mut row: [u8; 8] = [0u8; 8];
            let mut x: usize = 0;
            while x < 8
                invariant
                    x <= 8,
                    y < 8,
                    line_lo == self.raw_data@[2 * y as int],
                    line_hi == self.raw_data@[2 * y as int + 1],
                    forall|xx: int| 0 <= xx < x ==> #[trigger] row@[xx] == tile_pixel(self.raw_data@, y as int, xx),
                decreases 8 - x,
            {
                let s = (7 - x) as u8;
                assert((line_hi >> s) & 1 <= 1 && (line_lo >> s) & 1 <= 1) by (bit_vector);
                let color = ((line_hi >> s) & 1) * 2 + ((line_lo >> s) & 1);
                row[x] = color;
                x = x + 1;
            }
            self.data[y] = row;
            y = y + 1;
        }
    }

    /// The color numbers, row by row.
    pub fn data(&self) -> (r: &[[u8; 8]; 8])
        ensures
            *r == self.data,
    {
        &self.data
    }
}

} // verus!
