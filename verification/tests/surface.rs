use ball_demo::surface::{
    choose_surface_format, clamp_dimension, frame_plan, SurfaceConfig, SurfaceStatus,
};

#[test]
fn clamp_dimension_bounds() {
    assert_eq!(clamp_dimension(0, 2048), 1);
    assert_eq!(clamp_dimension(800, 2048), 800);
    assert_eq!(clamp_dimension(4096, 2048), 2048);
    assert_eq!(clamp_dimension(5, 1), 1);
}

#[test]
fn new_config_is_clamped_and_unconfigured() {
    let c = SurfaceConfig::new(0, 5000, 2048);
    assert_eq!((c.width, c.height, c.configured), (1, 2048, false));
    let c = SurfaceConfig::new(640, 480, 2048);
    assert_eq!((c.width, c.height, c.configured), (640, 480, false));
}

#[test]
fn resize_applies_positive_sizes() {
    let mut c = SurfaceConfig::new(1, 1, 2048);
    assert!(c.resize(1024, 4096, 2048));
    assert_eq!((c.width, c.height, c.configured), (1024, 2048, true));
}

#[test]
fn resize_ignores_empty_canvas() {
    let mut c = SurfaceConfig::new(300, 200, 2048);
    assert!(!c.resize(0, 600, 2048));
    assert_eq!((c.width, c.height, c.configured), (300, 200, false));
    assert!(!c.resize(600, 0, 2048));
    assert_eq!((c.width, c.height, c.configured), (300, 200, false));
}

#[test]
fn configured_stays_configured() {
    let mut c = SurfaceConfig::new(300, 200, 2048);
    assert!(c.resize(300, 200, 2048));
    assert!(!c.resize(0, 0, 2048));
    assert!(c.configured);
    assert_eq!((c.width, c.height), (300, 200));
}

#[test]
fn resize_twice_same_as_once() {
    let mut a = SurfaceConfig::new(10, 10, 100);
    a.resize(500, 50, 100);
    let first = (a.width, a.height, a.configured);
    a.resize(500, 50, 100);
    assert_eq!((a.width, a.height, a.configured), first);
    assert_eq!(first, (100, 50, true));
}

#[test]
fn frame_plan_per_status() {
    let cases = [
        (SurfaceStatus::Success, false, true),
        (SurfaceStatus::Suboptimal, true, true),
        (SurfaceStatus::Timeout, false, false),
        (SurfaceStatus::Occluded, false, false),
        (SurfaceStatus::Validation, false, false),
        (SurfaceStatus::Outdated, true, false),
        (SurfaceStatus::Lost, false, false),
    ];
    for (status, reconfigure, draw) in cases {
        let plan = frame_plan(status);
        assert_eq!((plan.reconfigure, plan.draw), (reconfigure, draw));
    }
}

#[test]
fn surface_format_prefers_first_srgb() {
    assert_eq!(choose_surface_format(&vec![false, true, true]), 1);
    assert_eq!(choose_surface_format(&vec![true, false]), 0);
    assert_eq!(choose_surface_format(&vec![false, false, false]), 0);
    assert_eq!(choose_surface_format(&vec![false]), 0);
    assert_eq!(choose_surface_format(&vec![false, false, false, true]), 3);
}
