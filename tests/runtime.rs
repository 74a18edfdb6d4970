use wgltf::{
    backend_name, create_depth_framebuffer, device_type_name, recovery_for, vendor_name, Backend,
    DepthTargetDesc, DeviceType, FixedClock, FrameTargets, Recovery, SurfaceErrorKind,
};

const STEP: u64 = 16_666_667;
const MAX_FRAME: u64 = 100_000_000;

#[test]
fn clock_runs_floor_of_owed_over_step_updates() {
    let mut c = FixedClock::new(STEP, MAX_FRAME);
    let t = c.tick(40_000_000);
    assert_eq!(t.updates, 2);
    assert_eq!(t.first_frame, 0);
    assert_eq!(c.accumulated, 40_000_000 - 2 * STEP);
    assert_eq!(c.frame, 2);
    assert_eq!(t.timeline, 40_000_000);

    let t = c.tick(STEP - c.accumulated - 1);
    assert_eq!(t.updates, 0);
    assert_eq!(c.accumulated, STEP - 1);
    let t = c.tick(1);
    assert_eq!(t.updates, 1);
    assert_eq!(t.first_frame, 2);
    assert_eq!(c.accumulated, 0);
    assert_eq!(c.frame, 3);
}

#[test]
fn clock_caps_long_frames() {
    let mut c = FixedClock::new(STEP, MAX_FRAME);
    let t = c.tick(5_000_000_000);
    assert_eq!(t.updates, MAX_FRAME / STEP);
    assert_eq!(c.timeline, MAX_FRAME);
    assert_eq!(c.accumulated, MAX_FRAME % STEP);
    let (num, den) = c.blending_factor();
    assert!(num < den);
}

#[test]
fn clock_remainder_stays_below_step() {
    let mut c = FixedClock::new(10, 35);
    let mut total_updates = 0;
    for e in [3u64, 7, 100, 0, 9, 11, 35] {
        let before = c.accumulated;
        let capped = e.min(35);
        let t = c.tick(e);
        assert_eq!(t.updates, (before + capped) / 10);
        assert!(c.accumulated < 10);
        total_updates += t.updates;
    }
    assert_eq!(c.frame, total_updates);
}

#[test]
fn resize_moves_surface_and_depth_together() {
    let mut t = FrameTargets::new(800, 600);
    assert_eq!(t.depth, create_depth_framebuffer(800, 600));
    assert!(t.resize(1024, 768));
    assert_eq!((t.width, t.height), (1024, 768));
    assert_eq!(
        t.depth,
        DepthTargetDesc { width: 1024, height: 768, depth_or_array_layers: 1, mip_level_count: 1, sample_count: 1 }
    );
    assert_eq!(t.generation, 1);
}

#[test]
fn resize_with_a_zero_dimension_changes_nothing() {
    let mut t = FrameTargets::new(800, 600);
    let before = t;
    assert!(!t.resize(0, 600));
    assert!(!t.resize(800, 0));
    assert!(!t.resize(0, 0));
    assert_eq!(t, before);
}

#[test]
fn surface_error_recovery() {
    assert_eq!(recovery_for(SurfaceErrorKind::Lost), Recovery::Reconfigure);
    assert_eq!(recovery_for(SurfaceErrorKind::Outdated), Recovery::Reconfigure);
    assert_eq!(recovery_for(SurfaceErrorKind::OutOfMemory), Recovery::Exit);
    assert_eq!(recovery_for(SurfaceErrorKind::Timeout), Recovery::Skip);
}

#[test]
fn adapter_names() {
    assert_eq!(vendor_name(0x10DE), "NVIDIA Corporation");
    assert_eq!(vendor_name(0x8086), "INTEL Corporation");
    assert_eq!(vendor_name(0x1002), "AMD");
    assert_eq!(vendor_name(0x1234), "Unknown vendor");
    assert_eq!(backend_name(Backend::Gl), "GL");
    assert_eq!(backend_name(Backend::BrowserWebGpu), "Browser WGPU");
    assert_eq!(device_type_name(DeviceType::DiscreteGpu), "Discrete GPU");
    assert_eq!(device_type_name(DeviceType::Cpu), "CPU");
}
