use wgctest::bridge::{ArrivalAction, BridgeError, CaptureBridge, TeardownStep};
use wgctest::common_colors::{blue, green, red};
use wgctest::device::{fallback_driver, first_driver, DriverKind, UNSUPPORTED_CODE};
use wgctest::mapped::{MappedTexture, BGRA8_FORMAT};
use wgctest::region::{client_area_rect, crop_box, Bounds, CopyBox, CropRect, Point, RegionError};
use wgctest::snapshot::{cleanup_steps, snapshot_steps, SnapshotStep};
use wgctest::swap_chain::{extent, PresentationMode, TransitionStep};
use wgctest::texture::{
    destination_desc, plan_copy, CopyPlan, TextureDesc, TextureUsage, BIND_SHADER_RESOURCE,
    CPU_ACCESS_READ,
};
use wgctest::verify::test_center_of_surface;
use wgctest::color::Color;

fn frame_desc(width: u32, height: u32) -> TextureDesc {
    TextureDesc {
        width,
        height,
        mip_levels: 1,
        array_size: 1,
        format: BGRA8_FORMAT,
        sample_count: 1,
        sample_quality: 0,
        usage: TextureUsage::Default,
        bind_flags: 0x28,
        cpu_access_flags: 0,
        misc_flags: 0x800,
    }
}

fn solid(width: u32, height: u32, c: Color) -> MappedTexture {
    let pitch = width * 4;
    let mut data = Vec::new();
    for _ in 0..width * height {
        data.extend_from_slice(&[c.b, c.g, c.r, c.a]);
    }
    MappedTexture::new(width, height, BGRA8_FORMAT, pitch, data).unwrap()
}

#[test]
fn staging_destination_desc() {
    let d = destination_desc(&frame_desc(640, 480), true, None);
    assert_eq!((d.width, d.height, d.format), (640, 480, BGRA8_FORMAT));
    assert_eq!(d.usage, TextureUsage::Staging);
    assert_eq!((d.bind_flags, d.cpu_access_flags, d.misc_flags), (0, CPU_ACCESS_READ, 0));
}

#[test]
fn sampleable_destination_desc() {
    let d = destination_desc(&frame_desc(640, 480), false, None);
    assert_eq!(d.usage, TextureUsage::Default);
    assert_eq!((d.bind_flags, d.cpu_access_flags, d.misc_flags), (BIND_SHADER_RESOURCE, 0, 0));
}

#[test]
fn cropped_plan_takes_rectangle_size_and_offset() {
    let plan = plan_copy(&frame_desc(100, 80), true, Some(CropRect { x: 10, y: 20, width: 30, height: 40 })).unwrap();
    assert_eq!((plan.desc.width, plan.desc.height), (30, 40));
    assert_eq!(
        plan.region,
        Some(CopyBox { left: 10, top: 20, front: 0, right: 40, bottom: 60, back: 1 })
    );
}

#[test]
fn cropped_origin_maps_to_source_offset() {
    // Source pixel (x, y) holds (x, y, 0, 255); the region copy is done here by
    // hand over the planned box, as the GPU does it.
    let (w, h) = (40u32, 30u32);
    let mut data = Vec::new();
    for y in 0..h {
        for x in 0..w {
            data.extend_from_slice(&[x as u8, y as u8, 0, 255]);
        }
    }
    let source = MappedTexture::new(w, h, BGRA8_FORMAT, w * 4, data).unwrap();
    let plan = plan_copy(&frame_desc(w, h), true, Some(CropRect { x: 7, y: 5, width: 12, height: 9 })).unwrap();
    let region = plan.region.unwrap();
    let mut copy = Vec::new();
    for y in region.top..region.bottom {
        for x in region.left..region.right {
            let c = source.read_pixel(x, y).unwrap();
            copy.extend_from_slice(&[c.b, c.g, c.r, c.a]);
        }
    }
    let cropped = MappedTexture::new(plan.desc.width, plan.desc.height, plan.desc.format, plan.desc.width * 4, copy).unwrap();
    assert_eq!((cropped.width(), cropped.height()), (12, 9));
    assert_eq!(cropped.read_pixel(0, 0), source.read_pixel(7, 5));
    assert_eq!(cropped.read_pixel(0, 0), Some(Color::new(7, 5, 0, 255)));
    assert_eq!(cropped.read_pixel(11, 8), Some(Color::new(18, 13, 0, 255)));
}

#[test]
fn whole_plan_keeps_source_size() {
    let plan: CopyPlan = plan_copy(&frame_desc(100, 80), false, None).unwrap();
    assert_eq!((plan.desc.width, plan.desc.height), (100, 80));
    assert_eq!(plan.region, None);
}

#[test]
fn crop_flush_with_source_edges_is_accepted() {
    let b = crop_box(CropRect { x: 0, y: 0, width: 100, height: 80 }, 100, 80).unwrap();
    assert_eq!((b.left, b.top, b.right, b.bottom), (0, 0, 100, 80));
    let b = crop_box(CropRect { x: 99, y: 79, width: 1, height: 1 }, 100, 80).unwrap();
    assert_eq!((b.right, b.bottom), (100, 80));
}

#[test]
fn crop_outside_source_is_refused() {
    assert_eq!(crop_box(CropRect { x: 1, y: 0, width: 100, height: 80 }, 100, 80), Err(RegionError::OutOfBounds));
    assert_eq!(crop_box(CropRect { x: 0, y: 1, width: 100, height: 80 }, 100, 80), Err(RegionError::OutOfBounds));
    assert_eq!(crop_box(CropRect { x: -1, y: 0, width: 10, height: 10 }, 100, 80), Err(RegionError::OutOfBounds));
    assert_eq!(crop_box(CropRect { x: i32::MAX, y: 0, width: i32::MAX, height: 1 }, 1000, 80), Err(RegionError::OutOfBounds));
    assert_eq!(
        plan_copy(&frame_desc(100, 80), true, Some(CropRect { x: 50, y: 50, width: 51, height: 10 })),
        Err(RegionError::OutOfBounds)
    );
}

#[test]
fn crop_without_area_is_refused() {
    assert_eq!(crop_box(CropRect { x: 0, y: 0, width: 0, height: 10 }, 100, 80), Err(RegionError::Empty));
    assert_eq!(crop_box(CropRect { x: 0, y: 0, width: 10, height: -3 }, 100, 80), Err(RegionError::Empty));
}

#[test]
fn client_area_of_window() {
    let r = client_area_rect(
        Bounds { left: 0, top: 0, right: 500, bottom: 500 },
        Point { x: 108, y: 231 },
        Bounds { left: 100, top: 200, right: 616, bottom: 739 },
    );
    assert_eq!(r, Some(CropRect { x: 8, y: 31, width: 500, height: 500 }));
}

#[test]
fn client_area_overflow_is_none() {
    let r = client_area_rect(
        Bounds { left: i32::MIN, top: 0, right: i32::MAX, bottom: 10 },
        Point { x: 0, y: 0 },
        Bounds { left: 0, top: 0, right: 10, bottom: 10 },
    );
    assert_eq!(r, None);
}

#[test]
fn green_window_client_area_center() {
    // A 500 x 500 client area inside a 516 x 539 captured frame.
    let crop = client_area_rect(
        Bounds { left: 0, top: 0, right: 500, bottom: 500 },
        Point { x: 108, y: 231 },
        Bounds { left: 100, top: 200, right: 616, bottom: 739 },
    )
    .unwrap();
    let plan = plan_copy(&frame_desc(516, 539), true, Some(crop)).unwrap();
    assert_eq!((plan.desc.width, plan.desc.height), (500, 500));
    let copy = solid(plan.desc.width, plan.desc.height, green());
    assert_eq!(copy.read_pixel(250, 250), Some(green()));
    assert!(test_center_of_surface(&copy, &green(), ()).is_ok());
}

#[test]
fn bridge_hands_frames_one_at_a_time_in_order() {
    let mut bridge = CaptureBridge::new();
    assert_eq!(bridge.next_frame(), Ok(None));
    assert_eq!(bridge.frame_arrived(1), ArrivalAction::Enqueued);
    assert_eq!(bridge.frame_arrived(2), ArrivalAction::Wait);
    assert_eq!(bridge.next_frame(), Ok(Some(1)));
    assert_eq!(bridge.held(), Some(1));
    assert_eq!(bridge.frame_arrived(2), ArrivalAction::Enqueued);
    assert_eq!(bridge.next_frame(), Err(BridgeError::FrameStillHeld));
    assert_eq!(bridge.release_frame(1), Ok(()));
    assert_eq!(bridge.next_frame(), Ok(Some(2)));
}

#[test]
fn bridge_release_twice_is_refused() {
    let mut bridge = CaptureBridge::new();
    bridge.frame_arrived(5);
    assert_eq!(bridge.next_frame(), Ok(Some(5)));
    assert_eq!(bridge.release_frame(4), Err(BridgeError::NotHeld));
    assert_eq!(bridge.release_frame(5), Ok(()));
    assert_eq!(bridge.release_frame(5), Err(BridgeError::NotHeld));
}

#[test]
fn bridge_close_once() {
    let mut bridge = CaptureBridge::new();
    assert!(bridge.is_open());
    assert_eq!(bridge.close(), Ok(vec![TeardownStep::CloseSession, TeardownStep::ClosePool]));
    assert!(!bridge.is_open());
    assert_eq!(bridge.close(), Err(BridgeError::Closed));
    assert_eq!(bridge.frame_arrived(3), ArrivalAction::Discard);
    assert_eq!(bridge.next_frame(), Err(BridgeError::Closed));
}

#[test]
fn fullscreen_cycle_red_green_blue() {
    let mut mode = PresentationMode::new();
    let mut bridge = CaptureBridge::new();
    let colors = [red(), green(), blue()];
    for (i, c) in colors.iter().enumerate() {
        let frame = i as u64;
        if i == 1 {
            assert_eq!(mode.set_fullscreen(true)[1], TransitionStep::EnterFullscreen);
        }
        if i == 2 {
            assert_eq!(mode.set_fullscreen(false)[1], TransitionStep::ExitFullscreen);
        }
        assert_eq!(bridge.frame_arrived(frame), ArrivalAction::Enqueued);
        assert_eq!(bridge.next_frame(), Ok(Some(frame)));
        let surface = solid(800, 600, *c);
        assert!(test_center_of_surface(&surface, c, frame).is_ok());
        assert_eq!(bridge.frame_arrived(frame + 10), ArrivalAction::Enqueued);
        assert_eq!(bridge.next_frame(), Err(BridgeError::FrameStillHeld));
        assert_eq!(bridge.release_frame(frame), Ok(()));
        assert_eq!(bridge.next_frame(), Ok(Some(frame + 10)));
        assert_eq!(bridge.release_frame(frame + 10), Ok(()));
    }
    assert!(!mode.is_fullscreen);
}

#[test]
fn fullscreen_transition_steps() {
    let mut mode = PresentationMode::new();
    assert!(mode.set_fullscreen(false).is_empty());
    assert_eq!(
        mode.set_fullscreen(true),
        vec![
            TransitionStep::QueryOutputBounds,
            TransitionStep::EnterFullscreen,
            TransitionStep::ReleaseTargetView,
            TransitionStep::ResizeBuffers,
            TransitionStep::CreateTargetView,
        ]
    );
    assert!(mode.set_fullscreen(true).is_empty());
    assert_eq!(mode.set_fullscreen(false)[0], TransitionStep::QueryClientSize);
}

#[test]
fn extent_of_bounds() {
    assert_eq!(extent(Bounds { left: -1920, top: 0, right: 0, bottom: 1080 }), Some((1920, 1080)));
    assert_eq!(extent(Bounds { left: 10, top: 0, right: 0, bottom: 10 }), None);
    assert_eq!(extent(Bounds { left: i32::MIN, top: 0, right: i32::MAX, bottom: 0 }), Some((u32::MAX, 0)));
}

#[test]
fn driver_falls_back_to_warp_only_when_unsupported() {
    assert_eq!(first_driver(), DriverKind::Hardware);
    assert_eq!(fallback_driver(DriverKind::Hardware, UNSUPPORTED_CODE), Some(DriverKind::Warp));
    assert_eq!(fallback_driver(DriverKind::Hardware, -1), None);
    assert_eq!(fallback_driver(DriverKind::Warp, UNSUPPORTED_CODE), None);
}

#[test]
fn snapshot_steps_in_order() {
    assert_eq!(
        snapshot_steps(false, true),
        vec![
            SnapshotStep::ResolveDevice, SnapshotStep::CreatePool, SnapshotStep::CreateSession, SnapshotStep::DisableCursor, SnapshotStep::StartCapture, SnapshotStep::InvokeStarted,
            SnapshotStep::WaitForFrame, SnapshotStep::CreateTexture, SnapshotStep::CopyRegion, SnapshotStep::CloseFrame, SnapshotStep::CloseSession, SnapshotStep::ClosePool,
        ]
    );
    assert_eq!(snapshot_steps(true, false).len(), 11);
    assert_eq!(snapshot_steps(true, false)[7], SnapshotStep::CopyWhole);
}

#[test]
fn snapshot_cleanup_after_failure() {
    // Cursor on, whole copy: the pool is created at step 1, the copy is step 7, the frame is closed at step 8.
    assert_eq!(cleanup_steps(true, false, 0), vec![]);
    assert_eq!(cleanup_steps(true, false, 1), vec![]);
    assert_eq!(cleanup_steps(true, false, 2), vec![SnapshotStep::ClosePool]);
    assert_eq!(cleanup_steps(true, false, 5), vec![SnapshotStep::CloseSession, SnapshotStep::ClosePool]);
    assert_eq!(cleanup_steps(true, false, 7), vec![SnapshotStep::CloseFrame, SnapshotStep::CloseSession, SnapshotStep::ClosePool]);
    assert_eq!(cleanup_steps(true, false, 8), vec![SnapshotStep::CloseSession, SnapshotStep::ClosePool]);
    assert_eq!(cleanup_steps(true, false, 10), vec![]);
    // Cursor off: the session is closed when disabling the cursor fails.
    assert_eq!(cleanup_steps(false, true, 3), vec![SnapshotStep::CloseSession, SnapshotStep::ClosePool]);
}
