use pixel_fill::bridge::{CopyLayout, ImageCopy, SurfaceImage};
use pixel_fill::compute::{GridCoord, PixelBuffer, SENTINEL_COLOR};
use pixel_fill::frame::{frame_commands, render_frame, FrameCommand, BIND_GROUP};
use pixel_fill::grid::{DispatchGrid, ResourceError};
use pixel_fill::params::ParameterVector;
use pixel_fill::resources::{
    plan_resources, BindingKind, BindingPlan, BufferPlan, BufferUsage, PresentMode, SurfacePlan,
    PARAMETER_BINDING, PIXEL_BINDING,
};

#[test]
fn frame_cycle_of_the_default_resolution() {
    let grid = DispatchGrid::new(1024, 768).unwrap();
    assert_eq!(BIND_GROUP, 0);
    assert_eq!(
        frame_commands(&grid),
        vec![
            FrameCommand::AcquireImage,
            FrameCommand::Dispatch {
                bind_group: 0,
                workgroups: GridCoord { x: 1024, y: 768, z: 1 },
            },
            FrameCommand::CopyBufferToImage(ImageCopy {
                layout: CopyLayout { offset: 0, bytes_per_row: Some(4096), rows_per_image: None },
                origin: GridCoord { x: 0, y: 0, z: 0 },
                extent: GridCoord { x: 1024, y: 768, z: 1 },
            }),
            FrameCommand::Submit,
            FrameCommand::Present,
        ]
    );
}

#[test]
fn dispatch_precedes_copy_precedes_present() {
    let grid = DispatchGrid::new(4, 2).unwrap();
    let commands = frame_commands(&grid);
    let position = |wanted: fn(&FrameCommand) -> bool| commands.iter().position(wanted).unwrap();
    let acquire = position(|c| matches!(c, FrameCommand::AcquireImage));
    let dispatch = position(|c| matches!(c, FrameCommand::Dispatch { .. }));
    let copy = position(|c| matches!(c, FrameCommand::CopyBufferToImage(_)));
    let submit = position(|c| matches!(c, FrameCommand::Submit));
    let present = position(|c| matches!(c, FrameCommand::Present));
    assert!(acquire < copy);
    assert!(dispatch < copy);
    assert!(copy < submit);
    assert!(submit < present);
    assert_eq!(commands.iter().filter(|c| matches!(c, FrameCommand::Submit)).count(), 1);
    assert_eq!(commands.len(), 5);
}

#[test]
fn rendered_frame_shows_the_sentinel_everywhere() {
    let grid = DispatchGrid::new(4, 2).unwrap();
    let look_at = ParameterVector::new();
    let mut buffer = PixelBuffer::new(grid);
    let mut image = SurfaceImage::new(grid);
    render_frame(&mut buffer, &look_at, &mut image);
    assert_eq!(buffer.cells(), &[SENTINEL_COLOR; 8][..]);
    assert_eq!(image.texels(), &[0xFFFF00FFu32; 8][..]);
    for row in 0..2 {
        for col in 0..4 {
            assert_eq!(image.pixel(row, col), Some(0xFFFF00FF));
        }
    }
}

#[test]
fn rendered_frame_does_not_depend_on_earlier_frames() {
    let grid = DispatchGrid::new(3, 3).unwrap();
    let mut look_at = ParameterVector::new();
    let mut buffer = PixelBuffer::new(grid);
    assert!(buffer.invoke(2, 2, &look_at));
    let mut image = SurfaceImage::new(grid);
    render_frame(&mut buffer, &look_at, &mut image);
    let first = image.texels().to_vec();
    look_at.set_direction(0.1f32.cos().to_bits(), 0.1f32.sin().to_bits());
    let mut next_image = SurfaceImage::new(grid);
    render_frame(&mut buffer, &look_at, &mut next_image);
    assert_eq!(next_image.texels(), &first[..]);
    assert_eq!(first, vec![SENTINEL_COLOR; 9]);
}

#[test]
fn resources_of_the_default_resolution() {
    let plan = plan_resources(1024, 768).unwrap();
    assert_eq!(plan.grid, DispatchGrid::new(1024, 768).unwrap());
    assert_eq!(
        plan.surface,
        SurfacePlan { width: 1024, height: 768, copy_dst: true, present_mode: PresentMode::Fifo }
    );
    assert_eq!(
        plan.pixel_buffer,
        BufferPlan {
            size: 3145728,
            usage: BufferUsage { storage: true, uniform: false, copy_src: true, copy_dst: true },
        }
    );
    assert_eq!(
        plan.parameter_buffer,
        BufferPlan {
            size: 12,
            usage: BufferUsage { storage: false, uniform: true, copy_src: false, copy_dst: true },
        }
    );
    assert_eq!(
        plan.pixel_binding,
        BindingPlan { binding: 0, kind: BindingKind::StorageReadWrite }
    );
    assert_eq!(
        plan.parameter_binding,
        BindingPlan { binding: 1, kind: BindingKind::UniformReadOnly }
    );
    assert_eq!((PIXEL_BINDING, PARAMETER_BINDING), (0, 1));
}

#[test]
fn resources_of_four_by_two() {
    let plan = plan_resources(4, 2).unwrap();
    assert_eq!(plan.pixel_buffer.size, 32);
    assert_eq!(plan.grid.cell_count(), 8);
    assert_eq!(plan.surface.width, 4);
    assert_eq!(plan.surface.height, 2);
    let buffer = PixelBuffer::new(plan.grid);
    assert_eq!(buffer.cells().len() as u64 * 4, plan.pixel_buffer.size);
}

#[test]
fn zero_extent_is_rejected_when_resources_are_planned() {
    assert_eq!(plan_resources(0, 768).unwrap_err(), ResourceError::EmptyGrid);
    assert_eq!(plan_resources(1024, 0).unwrap_err(), ResourceError::EmptyGrid);
    assert_eq!(plan_resources(0, 0).unwrap_err(), ResourceError::EmptyGrid);
}

#[test]
fn oversized_extent_is_rejected_when_resources_are_planned() {
    assert_eq!(plan_resources(65536, 16384).unwrap_err(), ResourceError::GridTooLarge);
    assert_eq!(plan_resources(u32::MAX, 1).unwrap_err(), ResourceError::GridTooLarge);
    assert!(plan_resources(65536, 16383).is_ok());
}
