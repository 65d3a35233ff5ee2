use vstd::prelude::*;

verus! {

/// An axial hexagonal coordinate `(q, r)`.
#[derive(Clone, Copy, PartialEq, Eq, Structural, Debug, Hash)]
pub struct HexCoord {
    pub q: i32,
    pub r: i32,
}

pub open spec fn abs_int(x: int) -> int {
    if x < 0 {
        -x
    } else {
        x
    }
}

pub open spec fn max3(a: int, b: int, c: int) -> int {
    if a >= b && a >= c {
        a
    } else if b >= c {
        b
    } else {
        c
    }
}

/// Hex grid distance: the largest absolute cube component of `a - b`.
pub open spec fn hex_distance(a: HexCoord, b: HexCoord) -> int {
    let dq = a.q - b.q;
    let dr = a.r - b.r;
    max3(abs_int(dq), abs_int(dr), abs_int(dq + dr))
}

/// Whether `c + (dq, dr)` is representable.
pub open spec fn offset_fits(c: HexCoord, dq: int, dr: int) -> bool {
    i32::MIN <= c.q + dq <= i32::MAX && i32::MIN <= c.r + dr <= i32::MAX
}

/// The six axial directions, in the fixed order used by `neighbors`.
pub open spec fn direction(i: int) -> (int, int) {
    if i == 0 {
        (1, -1)
    } else if i == 1 {
        (0, -1)
    } else if i == 2 {
        (-1, 0)
    } else if i == 3 {
        (-1, 1)
    } else if i == 4 {
        (0, 1)
    } else {
        (1, 0)
    }
}

impl HexCoord {
    pub fn new(q: i32, r: i32) -> (c: HexCoord)
        ensures
            c.q == q,
            c.r == r,
    {
        HexCoord { q, r }
    }

    pub fn equals(&self, other: &HexCoord) -> (b: bool)
        ensures
            b == (*self == *other),
    {
        self.q == other.q && self.r == other.r
    }

    /// The coordinate moved by `(dq, dr)`.
    pub fn offset(&self, dq: i32, dr: i32) -> (c: HexCoord)
        requires
            offset_fits(*self, dq as int, dr as int),
        ensures
            c.q == self.q + dq,
            c.r == self.r + dr,
    {
        HexCoord { q: self.q + dq, r: self.r + dr }
    }

    /// Hex grid distance to `other`.
    pub fn distance(&self, other: &HexCoord) -> (d: u64)
        ensures
            d as int == hex_distance(*self, *other),
    {
        let dq: i64 = self.q as i64 - other.q as i64;
        let dr: i64 = self.r as i64 - other.r as i64;
        let ds: i64 = dq + dr;
        let a: u64 = if dq < 0 { (-dq) as u64 } else { dq as u64 };
        let b: u64 = if dr < 0 { (-dr) as u64 } else { dr as u64 };
        let c: u64 = if ds < 0 { (-ds) as u64 } else { ds as u64 };
        if a >= b && a >= c {
            a
        } else if b >= c {
            b
        } else {
            c
        }
    }

    /// The six neighbours, one per axial direction, in the order of `direction`.
    pub fn neighbors(&self) -> (n: Vec<HexCoord>)
        requires
            offset_fits(*self, -1, -1),
            offset_fits(*self, 1, 1),
        ensures
            n@.len() == 6,
            forall|i: int|
                0 <= i < 6 ==> n@[i].q == self.q + direction(i).0 && n@[i].r == self.r
                    + direction(i).1,
            forall|i: int| 0 <= i < 6 ==> hex_distance(n@[i], *self) == 1,
    {
        let mut n: Vec<HexCoord> = Vec::new();
        n.push(self.offset(1, -1));
        n.push(self.offset(0, -1));
        n.push(self.offset(-1, 0));
        n.push(self.offset(-1, 1));
        n.push(self.offset(0, 1));
        n.push(self.offset(1, 0));
        n
    }
}

} // verus!
