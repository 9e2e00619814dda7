//! The compute stage: one invocation per pixel, each writing the color of its
//! own cell, and the pixel buffer that a dispatch fills.

use crate::grid::{cell_index, lemma_cell_index_in_range, DispatchGrid};
use crate::params::ParameterVector;
use vstd::prelude::*;

verus! {

/// The color every invocation writes: opaque magenta, packed with alpha in
/// the most significant byte, then red, green and blue.
pub const SENTINEL_COLOR: u32 = 0xFFFF_00FF;

/// What a freshly allocated cell holds before the first dispatch.
pub const CLEARED_CELL: u32 = 0;

/// Three unsigned coordinates: the position of an invocation in the grid, or
/// the extent of the grid.
#[derive(Clone, Copy, Debug, PartialEq, Eq, Structural)]
pub struct GridCoord {
    pub x: u32,
    pub y: u32,
    pub z: u32,
}

/// One invocation of the pixel-fill program: writes the sentinel color into
/// the cell that the invocation at `workgroup_id` owns, and touches no other
/// cell. The parameter vector is bound but does not influence the color.
pub fn cs_main(
    workgroup_id: GridCoord,
    num_workgroups: GridCoord,
    color: &mut [u32],
    _look_at: &ParameterVector,
)
    requires
        cell_index(num_workgroups.x as int, workgroup_id.x as int, workgroup_id.y as int)
            < old(color)@.len(),
    ensures
        final(color)@ == old(color)@.update(
            cell_index(num_workgroups.x as int, workgroup_id.x as int, workgroup_id.y as int),
            SENTINEL_COLOR,
        ),
{
    proof {
        assert(0 <= workgroup_id.y * num_workgroups.x) by (nonlinear_arith);
        assert(vstd::slice::spec_slice_len(color) == color@.len());
    }
    let row_start: usize = (workgroup_id.y as usize) * (num_workgroups.x as usize);
    let index: usize = row_start + (workgroup_id.x as usize);
    color[index] = SENTINEL_COLOR;
}

/// The sequence that a full dispatch leaves in a buffer of `count` cells.
pub open spec fn filled(count: int) -> Seq<u32> {
    Seq::new(count as nat, |i: int| SENTINEL_COLOR)
}

/// A linear array of one 32-bit color cell per pixel of its grid, row after
/// row. It is sized once, from a validated grid, and never resized.
///
/// A dispatch fills the cells in place through a mutable borrow, so validity
/// is carried as the explicit predicate `wf` rather than as a type invariant.
/// The fields are private: every buffer comes from `new`, which establishes
/// `wf`, and every method preserves it.
#[derive(Debug)]
pub struct PixelBuffer {
    grid: DispatchGrid,
    cells: Vec<u32>,
}

impl PixelBuffer {
    /// The grid the buffer was sized for.
    pub closed spec fn spec_grid(self) -> DispatchGrid {
        self.grid
    }

    /// The cells, row after row.
    pub closed spec fn view(self) -> Seq<u32> {
        self.cells@
    }

    /// One cell per invocation of a valid grid.
    pub open spec fn wf(self) -> bool {
        &&& self.spec_grid().wf()
        &&& self@.len() == self.spec_grid().spec_cell_count()
    }

    /// Allocates the buffer for `grid`, all cells cleared. The grid is
    /// already validated, so the size is known to be addressable.
    pub fn new(grid: DispatchGrid) -> (b: PixelBuffer)
        ensures
            b.wf(),
            b.spec_grid() == grid,
            b@ == Seq::new(grid.spec_cell_count() as nat, |i: int| CLEARED_CELL),
    {
        let count: u32 = grid.cell_count();
        let cells: Vec<u32> = vec![CLEARED_CELL; count as usize];
        assert(cells@ =~= Seq::new(grid.spec_cell_count() as nat, |i: int| CLEARED_CELL));
        PixelBuffer { grid, cells }
    }

    /// The grid the buffer was sized for.
    pub fn grid(&self) -> (g: DispatchGrid)
        ensures
            g == self.spec_grid(),
    {
        self.grid
    }

    /// The cells, row after row.
    pub fn cells(&self) -> (c: &[u32])
        ensures
            c@ == self@,
    {
        self.cells.as_slice()
    }

    /// Runs the single invocation at `(x, y)`. Returns whether the grid has
    /// such an invocation; if it has not, nothing is written.
    pub fn invoke(&mut self, x: u32, y: u32, look_at: &ParameterVector) -> (ran: bool)
        requires
            old(self).wf(),
        ensures
            final(self).wf(),
            final(self).spec_grid() == old(self).spec_grid(),
            ran <==> x < old(self).spec_grid().spec_width()
                && y < old(self).spec_grid().spec_height(),
            ran ==> final(self)@ == old(self)@.update(
                cell_index(old(self).spec_grid().spec_width(), x as int, y as int),
                SENTINEL_COLOR,
            ),
            !ran ==> final(self)@ == old(self)@,
    {
        let width: u32 = self.grid.width();
        let height: u32 = self.grid.height();
        if x < width && y < height {
            proof {
                lemma_cell_index_in_range(width as nat, height as nat, x as int, y as int);
            }
            cs_main(
                GridCoord { x, y, z: 0 },
                GridCoord { x: width, y: height, z: 1 },
                self.cells.as_mut_slice(),
                look_at,
            );
            true
        } else {
            false
        }
    }

    /// Runs the pixel-fill program once for every invocation of the grid,
    /// row by row. Afterwards every cell of the buffer holds the sentinel
    /// color, whatever it held before.
    pub fn dispatch_workgroups(&mut self, look_at: &ParameterVector)
        requires
            old(self).wf(),
        ensures
            final(self).wf(),
            final(self).spec_grid() == old(self).spec_grid(),
            final(self)@ == filled(old(self).spec_grid().spec_cell_count()),
    {
        let width: u32 = self.grid.width();
        let height: u32 = self.grid.height();
        let extent = GridCoord { x: width, y: height, z: 1 };
        let mut y: u32 = 0;
        while y < height
            invariant
                self.grid == old(self).grid,
                width == self.grid.spec_width(),
                height == self.grid.spec_height(),
                extent == (GridCoord { x: width, y: height, z: 1 }),
                self.cells@.len() == width * height,
                y <= height,
                forall|i: int| 0 <= i < y * width ==> self.cells@[i] == SENTINEL_COLOR,
            decreases height - y,
        {
            let mut x: u32 = 0;
            while x < width
                invariant
                    self.grid == old(self).grid,
                    width == self.grid.spec_width(),
                    height == self.grid.spec_height(),
                    extent == (GridCoord { x: width, y: height, z: 1 }),
                    self.cells@.len() == width * height,
                    y < height,
                    x <= width,
                    forall|i: int| 0 <= i < y * width + x ==> self.cells@[i] == SENTINEL_COLOR,
                decreases width - x,
            {
                proof {
                    lemma_cell_index_in_range(width as nat, height as nat, x as int, y as int);
                }
                cs_main(GridCoord { x, y, z: 0 }, extent, self.cells.as_mut_slice(), look_at);
                x = x + 1;
            }
            proof {
                assert((y + 1) * width == y * width + width) by (nonlinear_arith);
            }
            y = y + 1;
        }
        assert(self.cells@ =~= filled(width * height));
    }
}

} // verus!
