use vstd::prelude::*;
use crate::chess::{ChessTile, Occupation, TileColor};
use crate::coord::{hex_distance, HexCoord};

verus! {

/// The colour of the band through `(q, r)`: `(r - q) mod 3` picks GREY (0),
/// WHITE (1) or BLACK (2).
pub open spec fn tile_color(q: int, r: int) -> TileColor {
    let m = (r - q) % 3;
    if m == 0 {
        TileColor::GREY
    } else if m == 1 {
        TileColor::WHITE
    } else {
        TileColor::BLACK
    }
}

/// The band offset `3 * i` of band number `i`.
pub open spec fn band_offset(i: int) -> int {
    3 * i
}

/// `(q, r)` lies on a grey band `r == q + 3i`.
pub open spec fn grey_band(q: int, r: int) -> bool {
    exists|i: int| r == q + #[trigger] band_offset(i)
}

/// `(q, r)` lies on a black band `r == q + 3i - 1`.
pub open spec fn black_band(q: int, r: int) -> bool {
    exists|i: int| r == q + #[trigger] band_offset(i) - 1
}

/// `(q, r)` lies on a white band `r == q + 3i + 1`.
pub open spec fn white_band(q: int, r: int) -> bool {
    exists|i: int| r == q + #[trigger] band_offset(i) + 1
}

/// The number of coordinates within distance `radius` of a point.
pub open spec fn hexagon_count(radius: int) -> int {
    1 + 3 * radius * (radius + 1)
}

/// Whether a hexagon of `radius` around `origin` can be enumerated without
/// leaving `i32` or overflowing its `u32` count.
pub open spec fn board_fits(origin: HexCoord, radius: u32) -> bool {
    &&& hexagon_count(radius as int) <= u32::MAX
    &&& i32::MIN <= origin.q - radius
    &&& origin.q + radius <= i32::MAX
    &&& i32::MIN <= origin.r - radius
    &&& origin.r + radius <= i32::MAX
}

/// Relies on hexx::shapes::hexagon (which is `Hex::range`): it yields every
/// coordinate at hex distance at most `radius` from `center`, each once,
/// `Hex::range_count(radius)` of them. The count and the additions panic on
/// overflow, which `board_fits` rules out.
#[verifier::external_body]
fn hexagon_coords(center: HexCoord, radius: u32) -> (v: Vec<HexCoord>)
    requires
        board_fits(center, radius),
    ensures
        v@.len() == hexagon_count(radius as int),
        v@.no_duplicates(),
        forall|c: HexCoord| #[trigger] v@.contains(c) <==> hex_distance(c, center) <= radius,
{
    hexx::shapes::hexagon(hexx::hex(center.q, center.r), radius).map(
        |h: hexx::Hex| HexCoord::new(h.x, h.y),
    ).collect()
}

/// All coordinates within hex distance `radius` of `origin`, each once.
pub fn generate_board(origin: HexCoord, radius: u32) -> (v: Vec<HexCoord>)
    requires
        board_fits(origin, radius),
    ensures
        v@.len() == hexagon_count(radius as int),
        v@.no_duplicates(),
        forall|c: HexCoord| #[trigger] v@.contains(c) <==> hex_distance(c, origin) <= radius,
{
    hexagon_coords(origin, radius)
}

/// The colour band of `c`.
pub fn classify_tile(c: HexCoord) -> (t: TileColor)
    ensures
        t == tile_color(c.q as int, c.r as int),
{
    let d: i64 = c.r as i64 - c.q as i64;
    let m = d.checked_rem_euclid(3);
    match m {
        Some(0) => TileColor::GREY,
        Some(1) => TileColor::WHITE,
        _ => TileColor::BLACK,
    }
}

/// Every coordinate lies on exactly one of the three band families, and its
/// colour is the colour of that family: the colours partition the plane.
pub proof fn lemma_bands_partition(q: int, r: int)
    ensures
        grey_band(q, r) || black_band(q, r) || white_band(q, r),
        !(grey_band(q, r) && black_band(q, r)),
        !(grey_band(q, r) && white_band(q, r)),
        !(black_band(q, r) && white_band(q, r)),
        tile_color(q, r) == TileColor::GREY <==> grey_band(q, r),
        tile_color(q, r) == TileColor::BLACK <==> black_band(q, r),
        tile_color(q, r) == TileColor::WHITE <==> white_band(q, r),
{
    let d = r - q;
    let k = d / 3;
    let m = d % 3;
    assert(d == 3 * k + m && 0 <= m < 3);
    if m == 0 {
        assert(r == q + band_offset(k));
    } else if m == 1 {
        assert(r == q + band_offset(k) + 1);
    } else {
        assert(r == q + band_offset(k + 1) - 1);
    }
    if grey_band(q, r) {
        let i = choose|i: int| r == q + #[trigger] band_offset(i);
        assert(d % 3 == 0);
    }
    if black_band(q, r) {
        let i = choose|i: int| r == q + #[trigger] band_offset(i) - 1;
        assert(d % 3 == 2);
    }
    if white_band(q, r) {
        let i = choose|i: int| r == q + #[trigger] band_offset(i) + 1;
        assert(d % 3 == 1);
    }
}

/// The board: one tile per coordinate within `radius` of `origin`.
/// `coords` and `tiles` run in parallel.
pub struct BoardState {
    pub origin: HexCoord,
    pub radius: u32,
    pub coords: Vec<HexCoord>,
    pub tiles: Vec<ChessTile>,
}

impl BoardState {
    /// Keys unique, exactly the hexagon around `origin`, each tile coloured
    /// by its band.
    pub open spec fn wf(&self) -> bool {
        &&& self.coords@.len() == self.tiles@.len()
        &&& self.coords@.no_duplicates()
        &&& forall|c: HexCoord| #[trigger]
            self.coords@.contains(c) <==> hex_distance(c, self.origin) <= self.radius
        &&& forall|i: int|
            0 <= i < self.tiles@.len() ==> (#[trigger] self.tiles@[i]).color == tile_color(
                self.coords@[i].q as int,
                self.coords@[i].r as int,
            )
    }

    pub open spec fn has(&self, c: HexCoord) -> bool {
        self.coords@.contains(c)
    }

    /// A fresh board of `radius` around `origin`, every tile empty.
    pub fn new(origin: HexCoord, radius: u32) -> (b: BoardState)
        requires
            board_fits(origin, radius),
        ensures
            b.wf(),
            b.origin == origin,
            b.radius == radius,
            b.coords@.len() == hexagon_count(radius as int),
            forall|i: int| 0 <= i < b.tiles@.len() ==> (#[trigger] b.tiles@[i]).piece
                == Occupation::NONE,
    {
        let coords = generate_board(origin, radius);
        let mut tiles: Vec<ChessTile> = Vec::new();
        let mut k: usize = 0;
        while k < coords.len()
            invariant
                k <= coords@.len(),
                tiles@.len() == k,
                forall|i: int|
                    0 <= i < k ==> (#[trigger] tiles@[i]).color == tile_color(
                        coords@[i].q as int,
                        coords@[i].r as int,
                    ) && tiles@[i].piece == Occupation::NONE,
            decreases coords@.len() - k,
        {
            tiles.push(ChessTile::new(classify_tile(coords[k]), Occupation::NONE));
            k = k + 1;
        }
        BoardState { origin, radius, coords, tiles }
    }

    /// The position of `c` in `coords`, if it is on the board.
    pub fn index_of(&self, c: HexCoord) -> (r: Option<usize>)
        ensures
            r is None <==> !self.has(c),
            r matches Some(i) ==> i < self.coords@.len() && self.coords@[i as int] == c,
    {
        let mut k: usize = 0;
        while k < self.coords.len()
            invariant
                k <= self.coords@.len(),
                forall|i: int| 0 <= i < k ==> self.coords@[i] != c,
            decreases self.coords@.len() - k,
        {
            if self.coords[k] == c {
                return Some(k);
            }
            k = k + 1;
        }
        None
    }

    /// Whether `c` is a tile of this board.
    pub fn contains(&self, c: HexCoord) -> (r: bool)
        ensures
            r == self.has(c),
    {
        self.index_of(c).is_some()
    }

    /// The tile at `c`, if `c` is on the board.
    pub fn tile(&self, c: HexCoord) -> (r: Option<ChessTile>)
        requires
            self.wf(),
        ensures
            r is None <==> !self.has(c),
            forall|i: int|
                0 <= i < self.coords@.len() && self.coords@[i] == c ==> r == Some(
                    #[trigger] self.tiles@[i],
                ),
    {
        match self.index_of(c) {
            Some(k) => {
                proof {
                    assert forall|i: int|
                        0 <= i < self.coords@.len() && self.coords@[i] == c implies i == k by {
                        assert(self.coords@.no_duplicates());
                    }
                }
                Some(self.tiles[k])
            },
            None => None,
        }
    }

    /// Puts `piece` on the tile at `c`; `false`, and no change, if `c` is off
    /// the board.
    pub fn set_piece(&mut self, c: HexCoord, piece: Occupation) -> (placed: bool)
        requires
            old(self).wf(),
        ensures
            final(self).wf(),
            placed == old(self).has(c),
            final(self).origin == old(self).origin,
            final(self).radius == old(self).radius,
            final(self).coords@ == old(self).coords@,
            forall|i: int|
                0 <= i < old(self).tiles@.len() ==> (#[trigger] final(self).tiles@[i]) == (
                if old(self).coords@[i] == c {
                    ChessTile { color: old(self).tiles@[i].color, piece }
                } else {
                    old(self).tiles@[i]
                }),
    {
        match self.index_of(c) {
            Some(k) => {
                proof {
                    assert forall|i: int|
                        0 <= i < self.coords@.len() && self.coords@[i] == c implies i == k by {
                        assert(self.coords@.no_duplicates());
                    }
                }
                let color = self.tiles[k].color;
                self.tiles.set(k, ChessTile::new(color, piece));
                true
            },
            None => false,
        }
    }
}

/// Over a generated board, each tile's colour is the band family its
/// coordinate lies on, and each coordinate lies on exactly one family: the
/// three colour classes are disjoint and together cover the board.
pub proof fn lemma_board_partition(b: BoardState)
    requires
        b.wf(),
    ensures
        forall|i: int|
            0 <= i < b.tiles@.len() ==> {
                let q = b.coords@[i].q as int;
                let r = b.coords@[i].r as int;
                &&& (#[trigger] b.tiles@[i]).color == TileColor::GREY <==> grey_band(q, r)
                &&& b.tiles@[i].color == TileColor::BLACK <==> black_band(q, r)
                &&& b.tiles@[i].color == TileColor::WHITE <==> white_band(q, r)
                &&& grey_band(q, r) || black_band(q, r) || white_band(q, r)
                &&& !(grey_band(q, r) && black_band(q, r))
                &&& !(grey_band(q, r) && white_band(q, r))
                &&& !(black_band(q, r) && white_band(q, r))
            },
{
    assert forall|i: int| 0 <= i < b.tiles@.len() implies {
        let q = b.coords@[i].q as int;
        let r = b.coords@[i].r as int;
        &&& (#[trigger] b.tiles@[i]).color == TileColor::GREY <==> grey_band(q, r)
        &&& b.tiles@[i].color == TileColor::BLACK <==> black_band(q, r)
        &&& b.tiles@[i].color == TileColor::WHITE <==> white_band(q, r)
        &&& grey_band(q, r) || black_band(q, r) || white_band(q, r)
        &&& !(grey_band(q, r) && black_band(q, r))
        &&& !(grey_band(q, r) && white_band(q, r))
        &&& !(black_band(q, r) && white_band(q, r))
    } by {
        lemma_bands_partition(b.coords@[i].q as int, b.coords@[i].r as int);
    }
}

} // verus!
