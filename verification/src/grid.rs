//! The dispatch grid: one invocation per output pixel, and the mapping from
//! grid coordinates to cells of the pixel buffer.

use vstd::prelude::*;

verus! {

/// Bytes in one color cell.
pub const BYTES_PER_CELL: u32 = 4;

/// Output resolution used when nothing else is configured.
pub const DEFAULT_WIDTH: u32 = 1024;

pub const DEFAULT_HEIGHT: u32 = 768;

/// Why a resource could not be planned.
#[derive(Clone, Copy, Debug, PartialEq, Eq, Structural)]
pub enum ResourceError {
    /// The width or the height is zero.
    EmptyGrid,
    /// The pixel buffer would not fit in a 32-bit byte count.
    GridTooLarge,
}

/// The buffer index of the cell written by the invocation at `(x, y)` of a
/// grid that is `width` invocations wide.
pub open spec fn cell_index(width: int, x: int, y: int) -> int {
    y * width + x
}

/// The column of the invocation that writes cell `index`.
pub open spec fn cell_column(width: int, index: int) -> int {
    index % width
}

/// The row of the invocation that writes cell `index`.
pub open spec fn cell_row(width: int, index: int) -> int {
    index / width
}

/// Extents that resources can be created for: both sides positive, and the
/// byte size of the pixel buffer representable in 32 bits, so that every cell
/// index, the row stride and the buffer size are free of overflow.
pub open spec fn valid_extent(width: int, height: int) -> bool {
    &&& 0 < width
    &&& 0 < height
    &&& BYTES_PER_CELL * width * height <= u32::MAX
}

/// A validated width and height, fixed when the resources are created.
#[derive(Clone, Copy, Debug, PartialEq, Eq, Structural)]
pub struct DispatchGrid {
    width: u32,
    height: u32,
}

impl DispatchGrid {
    #[verifier::type_invariant]
    closed spec fn inv(self) -> bool {
        valid_extent(self.width as int, self.height as int)
    }

    /// Invocations per row.
    pub closed spec fn spec_width(self) -> int {
        self.width as int
    }

    /// Number of rows.
    pub closed spec fn spec_height(self) -> int {
        self.height as int
    }

    /// A grid as a specification value is meaningful when its extent is valid;
    /// every grid that executable code holds is.
    pub open spec fn wf(self) -> bool {
        valid_extent(self.spec_width(), self.spec_height())
    }

    /// Number of cells, which is also the number of invocations.
    pub open spec fn spec_cell_count(self) -> int {
        self.spec_width() * self.spec_height()
    }

    /// Validates an extent. Zero-sized grids are refused rather than turned
    /// into an empty dispatch.
    pub fn new(width: u32, height: u32) -> (r: Result<DispatchGrid, ResourceError>)
        ensures
            valid_extent(width as int, height as int) <==> r is Ok,
            r matches Ok(g) ==> g.spec_width() == width && g.spec_height() == height && g.wf(),
            r matches Err(e) ==> (e == ResourceError::EmptyGrid <==> width == 0 || height == 0),
    {
        if width == 0 || height == 0 {
            return Err(ResourceError::EmptyGrid);
        }
        let row_bytes: u64 = 4 * (width as u64);
        assert(4 * width * height == (4 * width) * height) by (nonlinear_arith);
        if row_bytes > (u32::MAX as u64) / (height as u64) {
            proof {
                assert((4 * width) * height > u32::MAX) by (nonlinear_arith)
                    requires
                        (4 * width) > (u32::MAX as int) / (height as int),
                        height > 0,
                ;
            }
            return Err(ResourceError::GridTooLarge);
        }
        proof {
            assert((4 * width) * height <= u32::MAX) by (nonlinear_arith)
                requires
                    (4 * width) <= (u32::MAX as int) / (height as int),
                    height > 0,
            ;
        }
        Ok(DispatchGrid { width, height })
    }

    pub fn width(&self) -> (w: u32)
        ensures
            w == self.spec_width(),
            self.wf(),
    {
        proof {
            use_type_invariant(self);
        }
        self.width
    }

    pub fn height(&self) -> (h: u32)
        ensures
            h == self.spec_height(),
            self.wf(),
    {
        proof {
            use_type_invariant(self);
        }
        self.height
    }

    /// Number of cells in the pixel buffer.
    pub fn cell_count(&self) -> (n: u32)
        ensures
            n == self.spec_cell_count(),
            n > 0,
            self.wf(),
    {
        proof {
            use_type_invariant(self);
            lemma_extent_bounds(self.width as int, self.height as int);
        }
        self.width * self.height
    }

    /// Size of the pixel buffer in bytes.
    pub fn byte_size(&self) -> (n: u64)
        ensures
            n == BYTES_PER_CELL * self.spec_cell_count(),
            n <= u32::MAX,
    {
        proof {
            use_type_invariant(self);
            lemma_extent_bounds(self.width as int, self.height as int);
        }
        let cells: u32 = self.width * self.height;
        4 * (cells as u64)
    }

    /// Distance in bytes between the starts of two consecutive rows.
    pub fn bytes_per_row(&self) -> (n: u32)
        ensures
            n == BYTES_PER_CELL * self.spec_width(),
    {
        proof {
            use_type_invariant(self);
            lemma_extent_bounds(self.width as int, self.height as int);
        }
        4 * self.width
    }

    /// The cell that the invocation at `(x, y)` owns, or `None` for
    /// coordinates outside the grid.
    pub fn index_of(&self, x: u32, y: u32) -> (r: Option<u32>)
        ensures
            r is Some <==> x < self.spec_width() && y < self.spec_height(),
            r matches Some(i) ==> i == cell_index(self.spec_width(), x as int, y as int) && i
                < self.spec_cell_count(),
    {
        proof {
            use_type_invariant(self);
            lemma_extent_bounds(self.width as int, self.height as int);
        }
        if x < self.width && y < self.height {
            proof {
                lemma_cell_index_in_range(
                    self.width as nat,
                    self.height as nat,
                    x as int,
                    y as int,
                );
            }
            Some(y * self.width + x)
        } else {
            None
        }
    }

    /// The coordinates `(x, y)` of the invocation that owns cell `index`, or
    /// `None` for an index past the last cell.
    pub fn coord_of(&self, index: u32) -> (r: Option<(u32, u32)>)
        ensures
            r is Some <==> index < self.spec_cell_count(),
            r matches Some(c) ==> {
                &&& c.0 == cell_column(self.spec_width(), index as int)
                &&& c.1 == cell_row(self.spec_width(), index as int)
                &&& c.0 < self.spec_width()
                &&& c.1 < self.spec_height()
                &&& cell_index(self.spec_width(), c.0 as int, c.1 as int) == index
            },
    {
        proof {
            use_type_invariant(self);
            lemma_extent_bounds(self.width as int, self.height as int);
        }
        if index < self.width * self.height {
            proof {
                lemma_cell_index_onto(self.width as nat, self.height as nat, index as int);
            }
            Some((index % self.width, index / self.width))
        } else {
            None
        }
    }
}

/// A valid extent keeps the cell count, the row stride and the byte size
/// within 32 bits.
pub proof fn lemma_extent_bounds(width: int, height: int)
    requires
        valid_extent(width, height),
    ensures
        0 < width * height,
        BYTES_PER_CELL * (width * height) == BYTES_PER_CELL * width * height,
        BYTES_PER_CELL * (width * height) <= u32::MAX,
        BYTES_PER_CELL * width <= u32::MAX,
        width <= width * height,
        height <= width * height,
{
    assert(0 < width * height && width <= width * height && height <= width * height
        && 4 * (width * height) == 4 * width * height && 4 * width <= 4 * width * height)
        by (nonlinear_arith)
        requires
            0 < width,
            0 < height,
    ;
}

/// Every invocation of the grid writes inside the first `width * height`
/// cells.
pub proof fn lemma_cell_index_in_range(width: nat, height: nat, x: int, y: int)
    requires
        0 <= x < width,
        0 <= y < height,
    ensures
        0 <= cell_index(width as int, x, y) < width * height,
{
    assert(0 <= y * width && y * width + width <= height * width && height * width == width
        * height) by (nonlinear_arith)
        requires
            0 <= y < height,
            0 <= width,
    ;
}

/// Two invocations that write the same cell are the same invocation.
pub proof fn lemma_cell_index_injective(width: nat, x1: int, y1: int, x2: int, y2: int)
    requires
        0 <= x1 < width,
        0 <= x2 < width,
        cell_index(width as int, x1, y1) == cell_index(width as int, x2, y2),
    ensures
        x1 == x2,
        y1 == y2,
{
    assert(y1 == y2) by (nonlinear_arith)
        requires
            0 <= x1 < width,
            0 <= x2 < width,
            y1 * width + x1 == y2 * width + x2,
    ;
}

/// Every one of the first `width * height` cells is written by an invocation
/// of the grid, the one in column `index % width` of row `index / width`.
pub proof fn lemma_cell_index_onto(width: nat, height: nat, index: int)
    requires
        0 <= index < width * height,
    ensures
        0 <= cell_column(width as int, index) < width,
        0 <= cell_row(width as int, index) < height,
        cell_index(width as int, cell_column(width as int, index), cell_row(width as int, index))
            == index,
{
    assert(width > 0) by (nonlinear_arith)
        requires
            0 <= index < width * height,
    ;
    let w = width as int;
    vstd::arithmetic::div_mod::lemma_fundamental_div_mod(index, w);
    vstd::arithmetic::div_mod::lemma_mod_bound(index, w);
    let q = index / w;
    let r = index % w;
    assert(w * q == q * w) by (nonlinear_arith);
    assert(0 <= q < height) by (nonlinear_arith)
        requires
            index == q * w + r,
            0 <= r < w,
            0 <= index < w * height,
    ;
}

/// The inverse mapping undoes the mapping: the column and the row of the cell
/// that `(x, y)` writes are `x` and `y`.
pub proof fn lemma_cell_coord_of_index(width: nat, x: int, y: int)
    requires
        0 <= x < width,
    ensures
        cell_column(width as int, cell_index(width as int, x, y)) == x,
        cell_row(width as int, cell_index(width as int, x, y)) == y,
{
    let w = width as int;
    let index = cell_index(w, x, y);
    vstd::arithmetic::div_mod::lemma_fundamental_div_mod(index, w);
    vstd::arithmetic::div_mod::lemma_mod_bound(index, w);
    assert(w * (index / w) == (index / w) * w) by (nonlinear_arith);
    lemma_cell_index_injective(width, x, y, index % w, index / w);
}

/// The mapping from grid coordinates to cell indices is a bijection from
/// `[0, width) x [0, height)` onto `[0, width * height)`: each invocation
/// writes inside the range, no two invocations share a cell, and no cell of
/// the range is left out.
pub proof fn lemma_cell_index_bijective(width: nat, height: nat)
    ensures
        forall|x: int, y: int|
            0 <= x < width && 0 <= y < height ==> 0 <= #[trigger] cell_index(width as int, x, y)
                < width * height,
        forall|x1: int, y1: int, x2: int, y2: int|
            0 <= x1 < width && 0 <= x2 < width && #[trigger] cell_index(width as int, x1, y1)
                == #[trigger] cell_index(width as int, x2, y2) ==> x1 == x2 && y1 == y2,
        forall|index: int|
            0 <= index < width * height ==> {
                &&& 0 <= #[trigger] cell_column(width as int, index) < width
                &&& 0 <= cell_row(width as int, index) < height
                &&& cell_index(
                    width as int,
                    cell_column(width as int, index),
                    cell_row(width as int, index),
                ) == index
            },
{
    assert forall|x: int, y: int| 0 <= x < width && 0 <= y < height implies 0
        <= #[trigger] cell_index(width as int, x, y) < width * height by {
        lemma_cell_index_in_range(width, height, x, y);
    }
    assert forall|x1: int, y1: int, x2: int, y2: int|
        0 <= x1 < width && 0 <= x2 < width && #[trigger] cell_index(width as int, x1, y1)
            == #[trigger] cell_index(width as int, x2, y2) implies x1 == x2 && y1 == y2 by {
        lemma_cell_index_injective(width, x1, y1, x2, y2);
    }
    assert forall|index: int| 0 <= index < width * height implies {
        &&& 0 <= #[trigger] cell_column(width as int, index) < width
        &&& 0 <= cell_row(width as int, index) < height
        &&& cell_index(
            width as int,
            cell_column(width as int, index),
            cell_row(width as int, index),
        ) == index
    } by {
        lemma_cell_index_onto(width, height, index);
    }
}

} // verus!
