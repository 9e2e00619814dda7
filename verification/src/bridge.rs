//! The presentation bridge: the copy of the pixel buffer into the surface
//! image, with its row-stride layout.

use crate::compute::{GridCoord, PixelBuffer, CLEARED_CELL};
use crate::grid::{
    cell_index, lemma_cell_index_in_range, lemma_extent_bounds, valid_extent, DispatchGrid,
    BYTES_PER_CELL,
};
use vstd::prelude::*;

verus! {

/// Where the copy finds the rows of the image in the source buffer.
#[derive(Clone, Copy, Debug, PartialEq, Eq)]
pub struct CopyLayout {
    /// Byte offset of the first row.
    pub offset: u64,
    /// Distance in bytes between the starts of two consecutive rows.
    pub bytes_per_row: Option<u32>,
    /// Rows per layer; not needed for a single-layer copy.
    pub rows_per_image: Option<u32>,
}

/// A buffer-to-image copy: the source layout, and the origin and size of the
/// region of the image that is written.
#[derive(Clone, Copy, Debug, PartialEq, Eq)]
pub struct ImageCopy {
    pub layout: CopyLayout,
    pub origin: GridCoord,
    pub extent: GridCoord,
}

/// The copy that the bridge performs for a grid: rows are read from offset
/// zero, `4 * width` bytes apart, and written from the zero origin over the
/// full extent of the image, which has a single layer.
pub open spec fn spec_copy_plan(width: int, height: int) -> ImageCopy {
    ImageCopy {
        layout: CopyLayout {
            offset: 0,
            bytes_per_row: Some((BYTES_PER_CELL * width) as u32),
            rows_per_image: None,
        },
        origin: GridCoord { x: 0, y: 0, z: 0 },
        extent: GridCoord { x: width as u32, y: height as u32, z: 1 },
    }
}

/// The copy that the bridge performs for `grid`.
pub fn copy_plan(grid: &DispatchGrid) -> (plan: ImageCopy)
    ensures
        plan == spec_copy_plan(grid.spec_width(), grid.spec_height()),
        plan.layout.bytes_per_row == Some((BYTES_PER_CELL * grid.spec_width()) as u32),
        BYTES_PER_CELL * grid.spec_width() <= u32::MAX,
{
    let width: u32 = grid.width();
    let height: u32 = grid.height();
    let bytes_per_row: u32 = grid.bytes_per_row();
    ImageCopy {
        layout: CopyLayout { offset: 0, bytes_per_row: Some(bytes_per_row), rows_per_image: None },
        origin: GridCoord { x: 0, y: 0, z: 0 },
        extent: GridCoord { x: width, y: height, z: 1 },
    }
}

/// The index in the source buffer of the cell that a copy with the given
/// layout writes to the texel at `(row, col)`.
pub open spec fn source_index(layout: CopyLayout, row: int, col: int) -> int {
    (layout.offset as int) / (BYTES_PER_CELL as int) + row * ((layout.bytes_per_row->0 as int) / (
    BYTES_PER_CELL as int)) + col
}

/// With the bridge's layout the copy reads, for the texel at `(row, col)`,
/// exactly the cell that the invocation at `(col, row)` wrote: the row
/// stride of the copy and the index mapping of the compute stage agree.
pub proof fn lemma_copy_reads_cell_of_invocation(width: int, height: int, row: int, col: int)
    requires
        valid_extent(width, height),
    ensures
        source_index(spec_copy_plan(width, height).layout, row, col) == cell_index(
            width,
            col,
            row,
        ),
{
    lemma_extent_bounds(width, height);
    assert((4 * width) / 4 == width);
}

/// The image that the presentation subsystem hands out for one frame: a
/// `width` by `height` array of 32-bit texels, row after row.
///
/// Like the pixel buffer it is written in place, so validity is the explicit
/// predicate `wf`. The fields are private: every image comes from `new`.
#[derive(Debug)]
pub struct SurfaceImage {
    grid: DispatchGrid,
    texels: Vec<u32>,
}

impl SurfaceImage {
    /// The extent of the image.
    pub closed spec fn spec_grid(self) -> DispatchGrid {
        self.grid
    }

    /// The texels, row after row.
    pub closed spec fn view(self) -> Seq<u32> {
        self.texels@
    }

    /// One texel per pixel of a valid extent.
    pub open spec fn wf(self) -> bool {
        &&& self.spec_grid().wf()
        &&& self@.len() == self.spec_grid().spec_cell_count()
    }

    /// The texel in row `row`, column `col`.
    pub open spec fn spec_pixel(self, row: int, col: int) -> u32 {
        self@[row * self.spec_grid().spec_width() + col]
    }

    /// A fresh image with the extent of `grid`, all texels cleared.
    pub fn new(grid: DispatchGrid) -> (s: SurfaceImage)
        ensures
            s.wf(),
            s.spec_grid() == grid,
            s@ == Seq::new(grid.spec_cell_count() as nat, |i: int| CLEARED_CELL),
    {
        let count: u32 = grid.cell_count();
        let texels: Vec<u32> = vec![CLEARED_CELL; count as usize];
        assert(texels@ =~= Seq::new(grid.spec_cell_count() as nat, |i: int| CLEARED_CELL));
        SurfaceImage { grid, texels }
    }

    /// The extent of the image.
    pub fn grid(&self) -> (g: DispatchGrid)
        ensures
            g == self.spec_grid(),
    {
        self.grid
    }

    /// The texels, row after row.
    pub fn texels(&self) -> (t: &[u32])
        ensures
            t@ == self@,
    {
        self.texels.as_slice()
    }

    /// The texel in row `row`, column `col`, or `None` outside the image.
    pub fn pixel(&self, row: u32, col: u32) -> (r: Option<u32>)
        requires
            self.wf(),
        ensures
            r is Some <==> row < self.spec_grid().spec_height() && col
                < self.spec_grid().spec_width(),
            r matches Some(p) ==> p == self.spec_pixel(row as int, col as int),
    {
        match self.grid.index_of(col, row) {
            Some(i) => Some(self.texels[i as usize]),
            None => None,
        }
    }
}

/// Copies the pixel buffer into the surface image, row by row, reading each
/// row at the stride of the bridge's layout. Every texel of the image is
/// overwritten: afterwards the texel at `(row, col)` is the cell
/// `row * width + col` of the buffer, and nothing of the image's prior
/// contents is left. The buffer and the image must have the same extent.
pub fn blit(pixel_buffer: &PixelBuffer, surface_image: &mut SurfaceImage)
    requires
        pixel_buffer.wf(),
        old(surface_image).wf(),
        old(surface_image).spec_grid().spec_width() == pixel_buffer.spec_grid().spec_width(),
        old(surface_image).spec_grid().spec_height() == pixel_buffer.spec_grid().spec_height(),
    ensures
        final(surface_image).wf(),
        final(surface_image).spec_grid() == old(surface_image).spec_grid(),
        final(surface_image)@ == pixel_buffer@,
        forall|row: int, col: int|
            0 <= row < pixel_buffer.spec_grid().spec_height() && 0 <= col
                < pixel_buffer.spec_grid().spec_width()
                ==> #[trigger] final(surface_image).spec_pixel(row, col)
                == pixel_buffer@[cell_index(pixel_buffer.spec_grid().spec_width(), col, row)],
{
    let grid = pixel_buffer.grid();
    let width: u32 = grid.width();
    let height: u32 = grid.height();
    let cells = pixel_buffer.cells();
    let plan = copy_plan(&grid);
    let stride: u32 = match plan.layout.bytes_per_row {
        Some(bytes) => bytes / BYTES_PER_CELL,
        None => width,
    };
    assert(stride == width);
    proof {
        lemma_extent_bounds(width as int, height as int);
    }
    let mut row: u32 = 0;
    while row < height
        invariant
            surface_image.grid == old(surface_image).grid,
            grid == pixel_buffer.spec_grid(),
            width == grid.spec_width(),
            height == grid.spec_height(),
            stride == width,
            width * height <= u32::MAX,
            cells@ == pixel_buffer@,
            cells@.len() == width * height,
            surface_image.texels@.len() == width * height,
            row <= height,
            forall|i: int| 0 <= i < row * width ==> surface_image.texels@[i] == cells@[i],
        decreases height - row,
    {
        let mut col: u32 = 0;
        while col < width
            invariant
                surface_image.grid == old(surface_image).grid,
                stride == width,
                width * height <= u32::MAX,
                cells@.len() == width * height,
                surface_image.texels@.len() == width * height,
                row < height,
                col <= width,
                forall|i: int|
                    0 <= i < row * width + col ==> surface_image.texels@[i] == cells@[i],
            decreases width - col,
        {
            proof {
                lemma_cell_index_in_range(width as nat, height as nat, col as int, row as int);
            }
            let source: u32 = row * stride + col;
            let target: u32 = row * width + col;
            surface_image.texels.set(target as usize, cells[source as usize]);
            col = col + 1;
        }
        proof {
            assert((row + 1) * width == row * width + width) by (nonlinear_arith);
        }
        row = row + 1;
    }
    assert(surface_image.texels@ =~= cells@);
}

} // verus!
