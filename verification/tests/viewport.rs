use multi_window::{PhysicalSize, SurfaceConfiguration, SurfaceUpdate, Viewport, ViewportError};

fn size(width: u32, height: u32) -> PhysicalSize {
    PhysicalSize { width, height }
}

fn config(width: u32, height: u32) -> SurfaceConfiguration {
    SurfaceConfiguration { width, height }
}

fn first(width: u32, height: u32) -> SurfaceUpdate {
    SurfaceUpdate { config: config(width, height), redraw: true }
}

fn later(width: u32, height: u32) -> SurfaceUpdate {
    SurfaceUpdate { config: config(width, height), redraw: false }
}

#[test]
fn new_viewport_is_unbuilt() {
    let viewport = Viewport::new();
    assert!(!viewport.is_built());
    assert_eq!(viewport.config(), None);
    assert_eq!(viewport.frames(), 0);
}

#[test]
fn fit_keeps_a_regular_size() {
    assert_eq!(SurfaceConfiguration::fit(size(800, 600)), config(800, 600));
    assert_eq!(SurfaceConfiguration::fit(size(1, 1)), config(1, 1));
    assert_eq!(
        SurfaceConfiguration::fit(size(u32::MAX, u32::MAX)),
        config(u32::MAX, u32::MAX)
    );
}

#[test]
fn fit_raises_zero_sides_to_one() {
    assert_eq!(SurfaceConfiguration::fit(size(0, 0)), config(1, 1));
    assert_eq!(SurfaceConfiguration::fit(size(0, 600)), config(1, 600));
    assert_eq!(SurfaceConfiguration::fit(size(800, 0)), config(800, 1));
}

#[test]
fn build_asks_for_the_first_redraw_and_resize_does_not() {
    let mut viewport = Viewport::new();
    assert_eq!(viewport.build(size(640, 480)).map(|update| update.redraw), Ok(true));
    assert!(!viewport.resize(size(800, 600)).redraw);
}

#[test]
fn build_puts_the_window_size_in_force() {
    let mut viewport = Viewport::new();
    assert_eq!(viewport.build(size(1024, 768)), Ok(first(1024, 768)));
    assert!(viewport.is_built());
    assert_eq!(viewport.config(), Some(config(1024, 768)));
    assert_eq!(viewport.frames(), 0);
}

#[test]
fn build_of_a_minimized_window_is_not_degenerate() {
    let mut viewport = Viewport::new();
    assert_eq!(viewport.build(size(0, 0)), Ok(first(1, 1)));
    assert_eq!(viewport.config(), Some(config(1, 1)));
}

#[test]
fn build_twice_is_refused() {
    let mut viewport = Viewport::new();
    assert_eq!(viewport.build(size(640, 480)), Ok(first(640, 480)));
    assert_eq!(viewport.build(size(800, 600)), Err(ViewportError::AlreadyBuilt));
    assert_eq!(viewport.config(), Some(config(640, 480)));
}

#[test]
fn is_built_tells_when_resize_and_paint_may_be_asked() {
    let mut viewport = Viewport::new();
    assert!(!viewport.is_built());
    assert_eq!(viewport.build(size(800, 600)), Ok(first(800, 600)));
    assert!(viewport.is_built());
    assert_eq!(viewport.build(size(1, 1)), Err(ViewportError::AlreadyBuilt));
    assert!(viewport.is_built());
    assert_eq!(viewport.resize(size(10, 20)), later(10, 20));
    assert_eq!(viewport.paint(true), Ok(()));
    assert!(viewport.is_built());
}

#[test]
fn resize_replaces_the_configuration() {
    let mut viewport = Viewport::new();
    viewport.build(size(640, 480)).unwrap();
    assert_eq!(viewport.resize(size(800, 600)), later(800, 600));
    assert_eq!(viewport.config(), Some(config(800, 600)));
}

#[test]
fn resize_to_a_degenerate_size_is_floored() {
    let mut viewport = Viewport::new();
    viewport.build(size(640, 480)).unwrap();
    assert_eq!(viewport.resize(size(0, 0)), later(1, 1));
    assert_eq!(viewport.config(), Some(config(1, 1)));
    assert_eq!(viewport.resize(size(0, 300)), later(1, 300));
    assert_eq!(viewport.resize(size(300, 0)), later(300, 1));
    assert_eq!(viewport.config(), Some(config(300, 1)));
}

#[test]
fn last_of_many_resizes_is_in_force() {
    let mut viewport = Viewport::new();
    viewport.build(size(10, 10)).unwrap();
    let sizes = [size(100, 200), size(300, 400), size(0, 7), size(1920, 1080)];
    for (n, s) in sizes.iter().enumerate() {
        viewport.resize(*s);
        assert_eq!(
            viewport.config(),
            Some(SurfaceConfiguration::fit(sizes[n])),
            "after resize number {}",
            n + 1
        );
    }
    assert_eq!(viewport.config(), Some(config(1920, 1080)));
}

#[test]
fn paint_counts_presented_frames() {
    let mut viewport = Viewport::new();
    viewport.build(size(640, 480)).unwrap();
    assert_eq!(viewport.paint(true), Ok(()));
    assert_eq!(viewport.frames(), 1);
    assert_eq!(viewport.paint(true), Ok(()));
    assert_eq!(viewport.paint(true), Ok(()));
    assert_eq!(viewport.frames(), 3);
    assert_eq!(viewport.config(), Some(config(640, 480)));
}

#[test]
fn paint_without_a_frame_reports_surface_lost() {
    let mut viewport = Viewport::new();
    viewport.build(size(640, 480)).unwrap();
    viewport.paint(true).unwrap();
    assert_eq!(viewport.paint(false), Err(ViewportError::SurfaceLost));
    assert_eq!(viewport.frames(), 1);
    assert_eq!(viewport.config(), Some(config(640, 480)));
}

#[test]
fn resize_does_not_touch_the_frame_count() {
    let mut viewport = Viewport::new();
    viewport.build(size(640, 480)).unwrap();
    viewport.paint(true).unwrap();
    viewport.resize(size(320, 240));
    assert_eq!(viewport.frames(), 1);
}
