//! What has to be created once, before the first frame: the two buffers, the
//! binding layout of the compute program, and the surface configuration.

use crate::grid::{lemma_extent_bounds, valid_extent, DispatchGrid, ResourceError, BYTES_PER_CELL};
use crate::params::PARAMETER_BYTES;
use vstd::prelude::*;

verus! {

/// Binding slot of the pixel buffer in the compute program.
pub const PIXEL_BINDING: u32 = 0;

/// Binding slot of the parameter vector in the compute program.
pub const PARAMETER_BINDING: u32 = 1;

/// What a buffer may be used for.
#[derive(Clone, Copy, Debug, PartialEq, Eq, Structural)]
pub struct BufferUsage {
    /// Read and written by the compute program as storage.
    pub storage: bool,
    /// Read by the compute program as a uniform.
    pub uniform: bool,
    /// Source of copies.
    pub copy_src: bool,
    /// Destination of copies, which includes writes from the host.
    pub copy_dst: bool,
}

/// A buffer to create.
#[derive(Clone, Copy, Debug, PartialEq, Eq, Structural)]
pub struct BufferPlan {
    /// Size in bytes.
    pub size: u64,
    pub usage: BufferUsage,
}

/// How the compute program sees a bound buffer.
#[derive(Clone, Copy, Debug, PartialEq, Eq, Structural)]
pub enum BindingKind {
    StorageReadWrite,
    UniformReadOnly,
}

/// One entry of the binding layout.
#[derive(Clone, Copy, Debug, PartialEq, Eq, Structural)]
pub struct BindingPlan {
    pub binding: u32,
    pub kind: BindingKind,
}

/// How presented frames are queued.
#[derive(Clone, Copy, Debug, PartialEq, Eq, Structural)]
pub enum PresentMode {
    /// First in, first out: a full queue blocks the next acquisition.
    Fifo,
}

/// The configuration of the surface.
#[derive(Clone, Copy, Debug, PartialEq, Eq, Structural)]
pub struct SurfacePlan {
    pub width: u32,
    pub height: u32,
    /// Surface images are written by copies.
    pub copy_dst: bool,
    pub present_mode: PresentMode,
}

/// Everything that is created at startup for one output resolution.
#[derive(Clone, Copy, Debug)]
pub struct ResourcePlan {
    pub grid: DispatchGrid,
    pub surface: SurfacePlan,
    pub pixel_buffer: BufferPlan,
    pub parameter_buffer: BufferPlan,
    pub pixel_binding: BindingPlan,
    pub parameter_binding: BindingPlan,
}

/// The pixel buffer of a grid: four bytes per cell, written by the compute
/// program and read by the copy into the surface image.
pub open spec fn spec_pixel_buffer_plan(width: int, height: int) -> BufferPlan {
    BufferPlan {
        size: (BYTES_PER_CELL * width * height) as u64,
        usage: BufferUsage { storage: true, uniform: false, copy_src: true, copy_dst: true },
    }
}

/// The GPU mirror of the parameter vector: read as a uniform, written from
/// the host.
pub open spec fn spec_parameter_buffer_plan() -> BufferPlan {
    BufferPlan {
        size: PARAMETER_BYTES,
        usage: BufferUsage { storage: false, uniform: true, copy_src: false, copy_dst: true },
    }
}

/// The surface of a grid: the grid's extent, written by copies, presented
/// first in, first out.
pub open spec fn spec_surface_plan(width: int, height: int) -> SurfacePlan {
    SurfacePlan {
        width: width as u32,
        height: height as u32,
        copy_dst: true,
        present_mode: PresentMode::Fifo,
    }
}

/// Plans the resources for a `width` by `height` output. This is where an
/// extent is validated: a zero width or height, or a pixel buffer too large
/// to address, is refused before anything is created, so that no dispatch or
/// copy ever meets a buffer of the wrong size.
pub fn plan_resources(width: u32, height: u32) -> (r: Result<ResourcePlan, ResourceError>)
    ensures
        r is Ok <==> valid_extent(width as int, height as int),
        r matches Ok(plan) ==> {
            &&& plan.grid.wf()
            &&& plan.grid.spec_width() == width
            &&& plan.grid.spec_height() == height
            &&& plan.surface == spec_surface_plan(width as int, height as int)
            &&& plan.pixel_buffer == spec_pixel_buffer_plan(width as int, height as int)
            &&& plan.pixel_buffer.size == BYTES_PER_CELL * width * height
            &&& plan.parameter_buffer == spec_parameter_buffer_plan()
            &&& plan.pixel_binding == (BindingPlan {
                binding: PIXEL_BINDING,
                kind: BindingKind::StorageReadWrite,
            })
            &&& plan.parameter_binding == (BindingPlan {
                binding: PARAMETER_BINDING,
                kind: BindingKind::UniformReadOnly,
            })
        },
        r matches Err(e) ==> (e == ResourceError::EmptyGrid <==> width == 0 || height == 0),
{
    match DispatchGrid::new(width, height) {
        Ok(grid) => {
            proof {
                lemma_extent_bounds(width as int, height as int);
            }
            Ok(
                ResourcePlan {
                    grid,
                    surface: SurfacePlan {
                        width,
                        height,
                        copy_dst: true,
                        present_mode: PresentMode::Fifo,
                    },
                    pixel_buffer: BufferPlan {
                        size: grid.byte_size(),
                        usage: BufferUsage {
                            storage: true,
                            uniform: false,
                            copy_src: true,
                            copy_dst: true,
                        },
                    },
                    parameter_buffer: BufferPlan {
                        size: PARAMETER_BYTES,
                        usage: BufferUsage {
                            storage: false,
                            uniform: true,
                            copy_src: false,
                            copy_dst: true,
                        },
                    },
                    pixel_binding: BindingPlan {
                        binding: PIXEL_BINDING,
                        kind: BindingKind::StorageReadWrite,
                    },
                    parameter_binding: BindingPlan {
                        binding: PARAMETER_BINDING,
                        kind: BindingKind::UniformReadOnly,
                    },
                },
            )
        },
        Err(e) => Err(e),
    }
}

} // verus!
