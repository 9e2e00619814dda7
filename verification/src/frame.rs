//! One frame cycle: the commands that the event loop issues for a redraw,
//! and the same cycle carried out on host-side buffers.

use crate::bridge::{blit, copy_plan, spec_copy_plan, ImageCopy, SurfaceImage};
use crate::compute::{filled, GridCoord, PixelBuffer};
use crate::grid::DispatchGrid;
use crate::params::ParameterVector;
use vstd::prelude::*;

verus! {

/// Index of the bind group that holds the two buffers.
pub const BIND_GROUP: u32 = 0;

/// One step of a frame cycle.
#[derive(Clone, Copy, Debug, PartialEq, Eq)]
pub enum FrameCommand {
    /// Take the next image from the surface.
    AcquireImage,
    /// Run the compute program over `workgroups`, with the buffers of bind
    /// group `bind_group`.
    Dispatch { bind_group: u32, workgroups: GridCoord },
    /// Copy the pixel buffer into the acquired image.
    CopyBufferToImage(ImageCopy),
    /// Hand the recorded work to the queue, as one submission.
    Submit,
    /// Hand the image back for showing.
    Present,
}

/// The frame cycle of a grid: acquire, dispatch one invocation per pixel
/// in a single layer, copy, submit, present. The dispatch stands before the
/// copy, and both before the one submission, so the copy reads what the
/// dispatch of the same frame wrote.
pub open spec fn spec_frame_commands(width: int, height: int) -> Seq<FrameCommand> {
    seq![
        FrameCommand::AcquireImage,
        FrameCommand::Dispatch {
            bind_group: BIND_GROUP,
            workgroups: GridCoord { x: width as u32, y: height as u32, z: 1 },
        },
        FrameCommand::CopyBufferToImage(spec_copy_plan(width, height)),
        FrameCommand::Submit,
        FrameCommand::Present,
    ]
}

/// The commands of one frame cycle for `grid`, in the order in which they
/// are to be issued.
pub fn frame_commands(grid: &DispatchGrid) -> (commands: Vec<FrameCommand>)
    ensures
        commands@ == spec_frame_commands(grid.spec_width(), grid.spec_height()),
{
    let width: u32 = grid.width();
    let height: u32 = grid.height();
    let mut commands: Vec<FrameCommand> = Vec::new();
    commands.push(FrameCommand::AcquireImage);
    commands.push(
        FrameCommand::Dispatch {
            bind_group: BIND_GROUP,
            workgroups: GridCoord { x: width, y: height, z: 1 },
        },
    );
    commands.push(FrameCommand::CopyBufferToImage(copy_plan(grid)));
    commands.push(FrameCommand::Submit);
    commands.push(FrameCommand::Present);
    assert(commands@ =~= spec_frame_commands(grid.spec_width(), grid.spec_height()));
    commands
}

/// Carries out one frame cycle on host-side buffers: the dispatch, then the
/// copy. Every cell is overwritten before the copy reads it, so whatever the
/// buffer and the image held before, the image ends up holding the sentinel
/// color in every texel.
pub fn render_frame(
    pixel_buffer: &mut PixelBuffer,
    look_at: &ParameterVector,
    surface_image: &mut SurfaceImage,
)
    requires
        old(pixel_buffer).wf(),
        old(surface_image).wf(),
        old(surface_image).spec_grid().spec_width()
            == old(pixel_buffer).spec_grid().spec_width(),
        old(surface_image).spec_grid().spec_height()
            == old(pixel_buffer).spec_grid().spec_height(),
    ensures
        final(pixel_buffer).wf(),
        final(surface_image).wf(),
        final(pixel_buffer).spec_grid() == old(pixel_buffer).spec_grid(),
        final(surface_image).spec_grid() == old(surface_image).spec_grid(),
        final(pixel_buffer)@ == filled(old(pixel_buffer).spec_grid().spec_cell_count()),
        final(surface_image)@ == final(pixel_buffer)@,
{
    pixel_buffer.dispatch_workgroups(look_at);
    blit(pixel_buffer, surface_image);
}

} // verus!
