//! Tiles of the scrolling grid and the packed coordinates that name them.

use crate::util::vec_extension::{Vec2, UNITS_PER_TILE};
use vstd::prelude::*;

verus! {

/// Number of tiles along each side of a chunk.
pub const CHUNK_TILES: i64 = 16;

/// What occupies one layer of a tile.
#[derive(Debug, Clone, Copy, PartialEq, Eq, Structural)]
pub enum ObjectType {
    Empty,
    Filled,
}

impl Default for ObjectType {
    fn default() -> (r: Self)
        ensures
            r == ObjectType::Empty,
    {
        ObjectType::Empty
    }
}

/// Two four-bit numbers, each in `0..=15`, packed into the size of one byte.
///
/// The first number sits in the low four bits and the second in the high four
/// bits, so the packed byte of `(a, b)` is `16 * b + a`.
#[derive(Debug, Copy, Clone, Hash)]
pub struct PackedU8(u8);

impl PackedU8 {
    /// The byte that holds both numbers.
    pub closed spec fn byte(self) -> u8 {
        self.0
    }

    /// The first number, as a mathematical value.
    pub open spec fn spec_a(self) -> int {
        self.byte() as int % 16
    }

    /// The second number, as a mathematical value.
    pub open spec fn spec_b(self) -> int {
        self.byte() as int / 16
    }

    /// Packs `a` and `b`. Both must be at most 15.
    pub fn new(a: u8, b: u8) -> (r: Self)
        requires
            a <= 15,
            b <= 15,
        ensures
            r.spec_a() == a,
            r.spec_b() == b,
            r.byte() == 16 * b + a,
    {
        assert((b << 4u8) == 16 * b) by (bit_vector)
            requires
                b <= 15,
        ;
        PackedU8((b << 4u8) + a)
    }

    /// The first number.
    pub fn a(self) -> (r: u8)
        ensures
            r == self.spec_a(),
            r <= 15,
    {
        let byte: u8 = self.0;
        assert(byte & 15u8 == byte % 16u8) by (bit_vector);
        byte & 15u8
    }

    /// The second number.
    pub fn b(self) -> (r: u8)
        ensures
            r == self.spec_b(),
            r <= 15,
    {
        let byte: u8 = self.0;
        assert(byte >> 4u8 == byte / 16u8) by (bit_vector);
        byte >> 4u8
    }

    /// The index of the tile in a row-major array of 16 by 16 tiles.
    pub fn index(self) -> (r: usize)
        ensures
            r == self.byte(),
            r == 16 * self.spec_b() + self.spec_a(),
            r < 256,
    {
        self.0 as usize
    }
}

impl Default for PackedU8 {
    fn default() -> (r: Self)
        ensures
            r.byte() == 0,
    {
        PackedU8(0)
    }
}

/// One tile of the grid.
#[derive(Debug, Clone, Copy)]
pub struct Object {
    pub background_object: ObjectType,
    pub foreground_object: ObjectType,
    pub id: PackedU8,
}

impl Default for Object {
    fn default() -> (r: Self)
        ensures
            r.background_object == ObjectType::Empty,
            r.foreground_object == ObjectType::Empty,
            r.id.byte() == 0,
    {
        Object {
            background_object: ObjectType::Empty,
            foreground_object: ObjectType::Empty,
            id: PackedU8(0),
        }
    }
}

/// A square of 16 by 16 tiles, stored row by row.
#[derive(Debug)]
pub struct Chunk {
    /// The tiles; the tile in column `a` of row `b` is at index `16 * b + a`.
    pub array: [Object; 256],
    pub id: PackedU8,
    /// The corner of the chunk with the smallest coordinates.
    pub upper_left_position: Vec2,
}

impl Clone for Chunk {
    fn clone(&self) -> (r: Self)
        ensures
            r == *self,
    {
        Chunk { array: self.array, id: self.id, upper_left_position: self.upper_left_position }
    }
}

impl Default for Chunk {
    /// A chunk at the origin in which every tile is empty and knows its own
    /// place.
    fn default() -> (r: Self)
        ensures
            r.id.byte() == 0,
            r.upper_left_position == (Vec2 { x: 0, y: 0 }),
            forall|i: int|
                0 <= i < 256 ==> {
                    &&& (#[trigger] r.array[i]).id.byte() == i
                    &&& r.array[i].background_object == ObjectType::Empty
                    &&& r.array[i].foreground_object == ObjectType::Empty
                },
    {
        let mut array: [Object; 256] = [Object::default();256];
        let mut i: usize = 0;
        while i < 256
            invariant
                i <= 256,
                forall|j: int|
                    0 <= j < 256 ==> {
                        &&& (#[trigger] array[j]).background_object == ObjectType::Empty
                        &&& array[j].foreground_object == ObjectType::Empty
                    },
                forall|j: int| 0 <= j < i ==> (#[trigger] array[j]).id.byte() == j,
            decreases 256 - i,
        {
            let byte: u8 = i as u8;
            array[i] = Object {
                background_object: ObjectType::Empty,
                foreground_object: ObjectType::Empty,
                id: PackedU8::new(byte % 16, byte / 16),
            };
            i = i + 1;
        }
        Chunk { array, id: PackedU8::default(), upper_left_position: Vec2 { x: 0, y: 0 } }
    }
}

impl Chunk {
    /// Whether the point `(x, y)` of the world lies on the chunk: at or after
    /// its upper left corner and less than 16 tiles from it along each axis.
    pub open spec fn covers(&self, x: int, y: int) -> bool {
        &&& self.upper_left_position.x <= x < self.upper_left_position.x + CHUNK_TILES
            * UNITS_PER_TILE
        &&& self.upper_left_position.y <= y < self.upper_left_position.y + CHUNK_TILES
            * UNITS_PER_TILE
    }

    /// The chunk with the foreground of the tile at `index` filled.
    pub open spec fn filled(self, index: int) -> Chunk {
        Chunk {
            array: vstd::array::spec_array_update(
                self.array,
                index,
                Object { foreground_object: ObjectType::Filled, ..self.array[index] },
            ),
            ..self
        }
    }

    /// Whether `pt` lies on the chunk.
    pub fn contains_world_point(&self, pt: Vec2) -> (r: bool)
        ensures
            r == self.covers(pt.x as int, pt.y as int),
    {
        let side: i128 = (CHUNK_TILES * UNITS_PER_TILE) as i128;
        let left: i128 = self.upper_left_position.x as i128;
        let top: i128 = self.upper_left_position.y as i128;
        let x: i128 = pt.x as i128;
        let y: i128 = pt.y as i128;
        left <= x && x < left + side && top <= y && y < top + side
    }

    /// The tile on which `pt` lies: its column and row within the chunk,
    /// packed. The point must lie on the chunk.
    pub fn tile_at(&self, pt: Vec2) -> (r: PackedU8)
        requires
            self.covers(pt.x as int, pt.y as int),
        ensures
            r.spec_a() == (pt.x - self.upper_left_position.x) / (UNITS_PER_TILE as int),
            r.spec_b() == (pt.y - self.upper_left_position.y) / (UNITS_PER_TILE as int),
    {
        let dx: u32 = (pt.x as i128 - self.upper_left_position.x as i128) as u32;
        let dy: u32 = (pt.y as i128 - self.upper_left_position.y as i128) as u32;
        let tile: u32 = UNITS_PER_TILE as u32;
        assert(tile == 1000 && dx < 16_000 && dy < 16_000);
        PackedU8::new((dx / tile) as u8, (dy / tile) as u8)
    }

    /// The tile at `index`.
    pub fn index(&self, index: PackedU8) -> (r: &Object)
        ensures
            *r == self.array[index.byte() as int],
    {
        &self.array[index.0 as usize]
    }

    /// Fills the foreground of the tile at `index`.
    pub fn fill(&mut self, index: PackedU8)
        ensures
            *final(self) == old(self).filled(index.byte() as int),
    {
        let i: usize = index.0 as usize;
        let tile = self.array[i];
        self.array[i] = Object { foreground_object: ObjectType::Filled, ..tile };
        proof {
            assert(self.array =~= old(self).filled(index.byte() as int).array);
        }
    }
}

/// The position in `chunks` of the first chunk on which `(x, y)` lies, from
/// position `from` on; the length of `chunks` if there is none.
pub open spec fn first_covering(chunks: Seq<Chunk>, x: int, y: int, from: int) -> int
    decreases chunks.len() - from,
{
    if from < 0 || from >= chunks.len() {
        chunks.len() as int
    } else if chunks[from].covers(x, y) {
        from
    } else {
        first_covering(chunks, x, y, from + 1)
    }
}

/// A click at the world point `pt`: the tile under it, in the first chunk on
/// which the point lies, gets its foreground filled.
///
/// Returns the position of that chunk and the tile, or nothing where the
/// point lies on no chunk, and then nothing changes.
pub fn fill_clicked(chunks: &mut Vec<Chunk>, pt: Vec2) -> (r: Option<(usize, PackedU8)>)
    ensures
        final(chunks)@.len() == old(chunks)@.len(),
        match r {
            Some((at, tile)) => {
                &&& at == first_covering(old(chunks)@, pt.x as int, pt.y as int, 0)
                &&& at < old(chunks)@.len()
                &&& tile.spec_a() == (pt.x - old(chunks)@[at as int].upper_left_position.x) / (
                UNITS_PER_TILE as int)
                &&& tile.spec_b() == (pt.y - old(chunks)@[at as int].upper_left_position.y) / (
                UNITS_PER_TILE as int)
                &&& final(chunks)@ == old(chunks)@.update(
                    at as int,
                    old(chunks)@[at as int].filled(tile.byte() as int),
                )
            },
            None => {
                &&& first_covering(old(chunks)@, pt.x as int, pt.y as int, 0) == old(chunks)@.len()
                &&& final(chunks)@ == old(chunks)@
            },
        },
{
    let n = chunks.len();
    let mut i: usize = 0;
    while i < n
        invariant
            i <= n,
            n == chunks@.len(),
            chunks@ == old(chunks)@,
            first_covering(chunks@, pt.x as int, pt.y as int, 0) == first_covering(
                chunks@,
                pt.x as int,
                pt.y as int,
                i as int,
            ),
        decreases n - i,
    {
        if chunks[i].contains_world_point(pt) {
            let tile = chunks[i].tile_at(pt);
            let mut chunk = chunks[i].clone();
            chunk.fill(tile);
            chunks.set(i, chunk);
            return Some((i, tile));
        }
        i = i + 1;
    }
    None
}

} // verus!
