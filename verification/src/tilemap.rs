//! A dense, rectangular tile map: a flat vector indexed by integer tile
//! coordinates inside a rectangle, with the coordinate/index arithmetic
//! proved exact.

use vstd::prelude::*;
use crate::geom::Vector2I;

verus! {

/// An axis-aligned rectangle of tile coordinates: an origin and a size.
#[derive(Clone, Copy, PartialEq, Eq, Structural, Debug)]
pub struct TileRect {
    pub origin: Vector2I,
    pub size: Vector2I,
}

impl TileRect {
    pub open spec fn spec_min_x(self) -> int { self.origin.x as int }
    pub open spec fn spec_min_y(self) -> int { self.origin.y as int }
    pub open spec fn spec_max_x(self) -> int { self.origin.x + self.size.x }
    pub open spec fn spec_max_y(self) -> int { self.origin.y + self.size.y }
    pub open spec fn spec_area(self) -> int { self.size.x * self.size.y }

    /// A usable rectangle: nonnegative extent, edges and area within the
    /// machine's integer ranges.
    pub open spec fn wf(self) -> bool {
        &&& self.size.x >= 0
        &&& self.size.y >= 0
        &&& self.spec_max_x() <= i32::MAX
        &&& self.spec_max_y() <= i32::MAX
        &&& self.spec_area() <= usize::MAX
    }

    /// Whether the coordinates lie inside the rectangle.
    pub open spec fn spec_contains(self, coords: Vector2I) -> bool {
        &&& self.spec_min_x() <= coords.x < self.spec_max_x()
        &&& self.spec_min_y() <= coords.y < self.spec_max_y()
    }
}

/// The flat index of tile coordinates inside a rectangle, row-major.
pub open spec fn spec_coords_to_index(rect: TileRect, coords: Vector2I) -> int {
    (coords.y - rect.spec_min_y()) * rect.size.x + (coords.x - rect.spec_min_x())
}

/// A dense tile map over a rectangle of tile coordinates.
#[derive(Clone, PartialEq, Debug)]
pub struct DenseTileMap<T> {
    pub data: Vec<T>,
    pub rect: TileRect,
}

impl<T> DenseTileMap<T> {
    /// The map's invariant: one entry per tile of a usable rectangle.
    pub open spec fn wf(self) -> bool {
        &&& self.rect.wf()
        &&& self.data@.len() == self.rect.spec_area()
    }

    /// A map over `rect` filled with the element type's default value.
    pub fn new(rect: TileRect) -> (r: DenseTileMap<T>)
        where T: Copy + Default
        requires
            rect.wf(),
        ensures
            r.rect == rect,
            r.wf(),
            forall|i: int, j: int| 0 <= i < r.data@.len() && 0 <= j < r.data@.len()
                ==> r.data@[i] == r.data@[j],
    {
        let fill: T = T::default();
        let length = rect_area(rect);
        let mut data: Vec<T> = Vec::new();
        let mut i: usize = 0;
        while i < length
            invariant
                i <= length,
                data@.len() == i,
                forall|j: int| 0 <= j < i ==> data@[j] == fill,
            decreases length - i,
        {
            data.push(fill);
            i = i + 1;
        }
        DenseTileMap { data, rect }
    }

    /// A map over `rect` whose entry for index `i` is `build(i)`.
    pub fn from_builder<F: Fn(usize) -> T>(build: F, rect: TileRect) -> (r: DenseTileMap<T>)
        requires
            rect.wf(),
            forall|i: usize| 0 <= i < rect.spec_area() ==> build.requires((i,)),
        ensures
            r.rect == rect,
            r.wf(),
            forall|i: int| 0 <= i < r.data@.len()
                ==> call_ensures(build, (i as usize,), #[trigger] r.data@[i]),
    {
        let length = rect_area(rect);
        let mut data: Vec<T> = Vec::new();
        let mut i: usize = 0;
        while i < length
            invariant
                i <= length,
                length == rect.spec_area(),
                data@.len() == i,
                forall|j: usize| 0 <= j < length ==> build.requires((j,)),
                forall|j: int| 0 <= j < i
                    ==> call_ensures(build, (j as usize,), #[trigger] data@[j]),
            decreases length - i,
        {
            let value = build(i);
            data.push(value);
            i = i + 1;
        }
        DenseTileMap { data, rect }
    }

    /// The flat index of `coords`, or nothing when it lies outside the
    /// rectangle.
    pub fn coords_to_index(&self, coords: Vector2I) -> (r: Option<usize>)
        requires
            self.wf(),
        ensures
            r == (if self.rect.spec_contains(coords) {
                Some(spec_coords_to_index(self.rect, coords) as usize)
            } else {
                None::<usize>
            }),
            r matches Some(i) ==> i < self.data@.len(),
    {
        if coords.x < self.rect.origin.x
            || coords.x >= self.rect.origin.x + self.rect.size.x
            || coords.y < self.rect.origin.y
            || coords.y >= self.rect.origin.y + self.rect.size.y
        {
            return None;
        }
        Some(self.coords_to_index_unchecked(coords))
    }

    /// The flat index of `coords`, which must lie inside the rectangle.
    pub fn coords_to_index_unchecked(&self, coords: Vector2I) -> (r: usize)
        requires
            self.wf(),
            self.rect.spec_contains(coords),
        ensures
            r == spec_coords_to_index(self.rect, coords),
            r < self.data@.len(),
    {
        proof {
            lemma_index_in_area(self.rect, coords);
        }
        (coords.y - self.rect.origin.y) as usize * self.rect.size.x as usize
            + (coords.x - self.rect.origin.x) as usize
    }

    /// The tile coordinates of a flat index.
    pub fn index_to_coords(&self, index: usize) -> (r: Vector2I)
        requires
            self.wf(),
            index < self.data@.len(),
            index <= i32::MAX,
        ensures
            r.x == self.rect.spec_min_x() + (index as int) % (self.rect.size.x as int),
            r.y == self.rect.spec_min_y() + (index as int) / (self.rect.size.x as int),
            self.rect.spec_contains(r),
            spec_coords_to_index(self.rect, r) == index,
    {
        proof {
            lemma_area_positive(self.rect, index as int);
            lemma_coords_roundtrip(self.rect, index as int);
        }
        let width = self.rect.size.x;
        let index_i = index as i32;
        Vector2I {
            x: self.rect.origin.x + index_i % width,
            y: self.rect.origin.y + index_i / width,
        }
    }
}

/// The row-major area, as the machine computes it.
fn rect_area(rect: TileRect) -> (r: usize)
    requires
        rect.wf(),
    ensures
        r == rect.spec_area(),
{
    proof {
        vstd::arithmetic::mul::lemma_mul_nonnegative(rect.size.x as int, rect.size.y as int);
    }
    rect.size.x as usize * rect.size.y as usize
}

/// Inside the rectangle, the row-major index lies below the area.
proof fn lemma_index_in_area(rect: TileRect, coords: Vector2I)
    requires
        rect.wf(),
        rect.spec_contains(coords),
    ensures
        0 <= spec_coords_to_index(rect, coords) < rect.spec_area(),
{
    let row = coords.y - rect.spec_min_y();
    let col = coords.x - rect.spec_min_x();
    assert(0 <= row < rect.size.y);
    assert(0 <= col < rect.size.x);
    assert(row * rect.size.x + col < rect.spec_area()) by (nonlinear_arith)
        requires
            0 <= row < rect.size.y,
            0 <= col < rect.size.x,
    {}
    assert(row * rect.size.x + col >= 0) by (nonlinear_arith)
        requires
            0 <= row,
            0 <= col,
            rect.size.x >= 0,
    {}
}

/// A rectangle holding any index below its area has positive extent.
proof fn lemma_area_positive(rect: TileRect, index: int)
    requires
        rect.wf(),
        0 <= index < rect.spec_area(),
    ensures
        rect.size.x > 0,
        rect.size.y > 0,
{
    if rect.size.x <= 0 || rect.size.y <= 0 {
        assert(rect.spec_area() <= 0) by (nonlinear_arith)
            requires
                rect.size.x >= 0,
                rect.size.y >= 0,
                rect.size.x <= 0 || rect.size.y <= 0,
        {}
    }
}

/// Splitting a flat index by the row width recovers the unique coordinates.
proof fn lemma_coords_roundtrip(rect: TileRect, index: int)
    requires
        rect.wf(),
        rect.size.x > 0,
        rect.size.y > 0,
        0 <= index < rect.spec_area(),
    ensures
        ({
            let col = index % (rect.size.x as int);
            let row = index / (rect.size.x as int);
            &&& 0 <= col < rect.size.x
            &&& 0 <= row < rect.size.y
            &&& row * rect.size.x + col == index
        }),
{
    let w = rect.size.x as int;
    vstd::arithmetic::div_mod::lemma_fundamental_div_mod(index, w);
    vstd::arithmetic::div_mod::lemma_mod_bound(index, w);
    vstd::arithmetic::div_mod::lemma_div_pos_is_pos(index, w);
    let row = index / w;
    if row >= rect.size.y {
        assert(row * w >= rect.size.y * w) by (nonlinear_arith)
            requires
                row >= rect.size.y,
                w > 0,
        {}
        assert(rect.size.y * w == rect.size.x * rect.size.y) by (nonlinear_arith)
            requires
                w == rect.size.x,
        {}
        assert(index >= rect.spec_area());
    }
}

} // verus!
