use multi_window::{
    ChildEvent, ElementState, KeyCode, Phase, PhysicalSize, StopReason, SurfaceConfiguration,
    SurfaceUpdate, ViewportError, WindowEvent, Worker, WorkerAction, WorkerEvent,
};

fn size(width: u32, height: u32) -> PhysicalSize {
    PhysicalSize { width, height }
}

fn config(width: u32, height: u32) -> SurfaceConfiguration {
    SurfaceConfiguration { width, height }
}

fn configure(config: SurfaceConfiguration, redraw: bool) -> WorkerAction {
    WorkerAction::Configure(SurfaceUpdate { config, redraw })
}

fn resized(width: u32, height: u32) -> WorkerEvent {
    WorkerEvent::Received(ChildEvent::WindowEvent(WindowEvent::Resized(size(width, height))))
}

fn redraw() -> WorkerEvent {
    WorkerEvent::Received(ChildEvent::WindowEvent(WindowEvent::RedrawRequested))
}

fn ready_worker(width: u32, height: u32) -> Worker {
    let mut worker = Worker::new();
    assert_eq!(worker.step(WorkerEvent::Started), WorkerAction::Negotiate);
    assert_eq!(
        worker.step(WorkerEvent::Negotiated(size(width, height))),
        configure(SurfaceConfiguration::fit(size(width, height)), true)
    );
    assert_eq!(worker.step(WorkerEvent::Completed), WorkerAction::Receive);
    assert_eq!(worker.phase(), Phase::Ready);
    worker
}

fn every_event() -> Vec<WorkerEvent> {
    vec![
        WorkerEvent::Started,
        WorkerEvent::Negotiated(size(640, 480)),
        WorkerEvent::Completed,
        WorkerEvent::Failed,
        resized(800, 600),
        redraw(),
        WorkerEvent::Received(ChildEvent::WindowEvent(WindowEvent::Other)),
        WorkerEvent::Disconnected,
    ]
}

#[test]
fn new_worker_is_spawned_and_unbuilt() {
    let worker = Worker::new();
    assert_eq!(worker.phase(), Phase::Spawned);
    assert!(!worker.viewport().is_built());
    assert_eq!(worker.viewport().config(), None);
    assert_eq!(worker.viewport().frames(), 0);
}

#[test]
fn worker_builds_before_it_receives() {
    let mut worker = Worker::new();
    assert_eq!(worker.step(WorkerEvent::Started), WorkerAction::Negotiate);
    assert_eq!(worker.phase(), Phase::Building);
    assert!(!worker.viewport().is_built());
    assert_eq!(
        worker.step(WorkerEvent::Negotiated(size(1280, 720))),
        configure(config(1280, 720), true)
    );
    assert_eq!(worker.phase(), Phase::Building);
    assert_eq!(worker.viewport().config(), Some(config(1280, 720)));
    assert_eq!(worker.step(WorkerEvent::Completed), WorkerAction::Receive);
    assert_eq!(worker.phase(), Phase::Ready);
}

#[test]
fn build_floors_a_zero_sized_window() {
    let mut worker = Worker::new();
    worker.step(WorkerEvent::Started);
    assert_eq!(
        worker.step(WorkerEvent::Negotiated(size(0, 0))),
        configure(config(1, 1), true)
    );
}

#[test]
fn failed_negotiation_stops_the_worker() {
    let mut worker = Worker::new();
    worker.step(WorkerEvent::Started);
    assert_eq!(worker.step(WorkerEvent::Failed), WorkerAction::Exit(StopReason::BuildFailed));
    assert_eq!(worker.phase(), Phase::Stopped);
    assert!(!worker.viewport().is_built());
}

#[test]
fn failed_first_configuration_stops_the_worker() {
    let mut worker = Worker::new();
    worker.step(WorkerEvent::Started);
    worker.step(WorkerEvent::Negotiated(size(640, 480)));
    assert_eq!(worker.step(WorkerEvent::Failed), WorkerAction::Exit(StopReason::BuildFailed));
    assert_eq!(worker.phase(), Phase::Stopped);
}

#[test]
fn no_surface_work_before_the_build_is_complete() {
    // A spawned worker and a building worker answer a resize or a redraw
    // request by stopping, never by touching the surface.
    for event in [resized(800, 600), redraw()] {
        let mut spawned = Worker::new();
        assert_eq!(spawned.step(event), WorkerAction::Exit(StopReason::OutOfTurn));
        assert!(!spawned.viewport().is_built());
        assert_eq!(spawned.viewport().frames(), 0);

        let mut negotiating = Worker::new();
        negotiating.step(WorkerEvent::Started);
        assert_eq!(negotiating.step(event), WorkerAction::Exit(StopReason::OutOfTurn));
        assert!(!negotiating.viewport().is_built());

        let mut configuring = Worker::new();
        configuring.step(WorkerEvent::Started);
        configuring.step(WorkerEvent::Negotiated(size(640, 480)));
        assert_eq!(configuring.step(event), WorkerAction::Exit(StopReason::OutOfTurn));
        assert_eq!(configuring.viewport().config(), Some(config(640, 480)));
        assert_eq!(configuring.viewport().frames(), 0);
    }
}

#[test]
fn completion_without_negotiation_stops_the_worker() {
    let mut worker = Worker::new();
    worker.step(WorkerEvent::Started);
    assert_eq!(worker.step(WorkerEvent::Completed), WorkerAction::Exit(StopReason::OutOfTurn));
    assert_eq!(worker.phase(), Phase::Stopped);
}

#[test]
fn second_negotiation_is_refused_by_the_surface_context() {
    let mut worker = Worker::new();
    worker.step(WorkerEvent::Started);
    worker.step(WorkerEvent::Negotiated(size(640, 480)));
    assert_eq!(
        worker.step(WorkerEvent::Negotiated(size(800, 600))),
        WorkerAction::Exit(StopReason::Surface(ViewportError::AlreadyBuilt))
    );
    assert_eq!(worker.viewport().config(), Some(config(640, 480)));
}

#[test]
fn resize_reconfigures_the_surface() {
    let mut worker = ready_worker(640, 480);
    assert_eq!(
        worker.step(resized(800, 600)),
        configure(config(800, 600), false)
    );
    assert_eq!(worker.phase(), Phase::Resizing);
    assert_eq!(worker.viewport().config(), Some(config(800, 600)));
    assert_eq!(worker.step(WorkerEvent::Completed), WorkerAction::Receive);
    assert_eq!(worker.phase(), Phase::Ready);
}

#[test]
fn resize_to_zero_is_floored() {
    let mut worker = ready_worker(640, 480);
    assert_eq!(
        worker.step(resized(0, 0)),
        configure(config(1, 1), false)
    );
    worker.step(WorkerEvent::Completed);
    assert_eq!(worker.viewport().config(), Some(config(1, 1)));
}

#[test]
fn resizes_apply_in_the_order_sent() {
    let mut worker = ready_worker(640, 480);
    let sizes = [(100, 100), (200, 150), (0, 90), (1920, 1080), (300, 300)];
    for (width, height) in sizes {
        let expected = SurfaceConfiguration::fit(size(width, height));
        assert_eq!(
            worker.step(resized(width, height)),
            configure(expected, false)
        );
        assert_eq!(worker.step(WorkerEvent::Completed), WorkerAction::Receive);
        assert_eq!(worker.viewport().config(), Some(expected));
    }
    assert_eq!(worker.viewport().config(), Some(config(300, 300)));
    assert_eq!(worker.viewport().frames(), 0);
}

#[test]
fn redraw_request_paints_one_frame() {
    let mut worker = ready_worker(640, 480);
    assert_eq!(worker.step(redraw()), WorkerAction::Paint);
    assert_eq!(worker.phase(), Phase::Painting);
    assert_eq!(worker.viewport().frames(), 0);
    assert_eq!(worker.step(WorkerEvent::Completed), WorkerAction::Receive);
    assert_eq!(worker.phase(), Phase::Ready);
    assert_eq!(worker.viewport().frames(), 1);
}

#[test]
fn lost_surface_is_fatal_for_the_worker() {
    let mut worker = ready_worker(640, 480);
    worker.step(redraw());
    worker.step(WorkerEvent::Completed);
    assert_eq!(worker.step(redraw()), WorkerAction::Paint);
    assert_eq!(
        worker.step(WorkerEvent::Failed),
        WorkerAction::Exit(StopReason::Surface(ViewportError::SurfaceLost))
    );
    assert_eq!(worker.phase(), Phase::Stopped);
    assert_eq!(worker.viewport().frames(), 1);
    // There is no second attempt.
    assert_eq!(worker.step(redraw()), WorkerAction::Exit(StopReason::OutOfTurn));
    assert_eq!(worker.viewport().frames(), 1);
}

#[test]
fn failed_reconfiguration_stops_the_worker() {
    let mut worker = ready_worker(640, 480);
    worker.step(resized(800, 600));
    assert_eq!(worker.step(WorkerEvent::Failed), WorkerAction::Exit(StopReason::ConfigureFailed));
    assert_eq!(worker.phase(), Phase::Stopped);
}

#[test]
fn other_events_are_passed_over() {
    let mut worker = ready_worker(640, 480);
    let passed_over = [
        WindowEvent::Other,
        WindowEvent::CloseRequested,
        WindowEvent::KeyboardInput { state: ElementState::Pressed, key: KeyCode::Other },
        WindowEvent::KeyboardInput { state: ElementState::Released, key: KeyCode::KeyN },
        WindowEvent::KeyboardInput { state: ElementState::Pressed, key: KeyCode::KeyN },
    ];
    for event in passed_over {
        assert_eq!(
            worker.step(WorkerEvent::Received(ChildEvent::WindowEvent(event))),
            WorkerAction::Receive
        );
        assert_eq!(worker.phase(), Phase::Ready);
    }
    assert_eq!(worker.viewport().config(), Some(config(640, 480)));
    assert_eq!(worker.viewport().frames(), 0);
}

#[test]
fn closed_channel_ends_the_worker() {
    let mut worker = ready_worker(640, 480);
    assert_eq!(
        worker.step(WorkerEvent::Disconnected),
        WorkerAction::Exit(StopReason::ChannelClosed)
    );
    assert_eq!(worker.phase(), Phase::Stopped);
}

#[test]
fn stopped_worker_stays_stopped() {
    for event in every_event() {
        let mut worker = ready_worker(640, 480);
        worker.step(WorkerEvent::Disconnected);
        assert_eq!(worker.step(event), WorkerAction::Exit(StopReason::OutOfTurn));
        assert_eq!(worker.phase(), Phase::Stopped);
        assert_eq!(worker.viewport().config(), Some(config(640, 480)));
        assert_eq!(worker.viewport().frames(), 0);
    }
}

#[test]
fn spawned_worker_accepts_only_the_start() {
    for event in every_event() {
        let mut worker = Worker::new();
        let action = worker.step(event);
        if event == WorkerEvent::Started {
            assert_eq!(action, WorkerAction::Negotiate);
            assert_eq!(worker.phase(), Phase::Building);
        } else {
            assert_eq!(action, WorkerAction::Exit(StopReason::OutOfTurn));
            assert_eq!(worker.phase(), Phase::Stopped);
        }
    }
}

#[test]
fn ready_worker_accepts_only_channel_outcomes() {
    for event in [
        WorkerEvent::Started,
        WorkerEvent::Negotiated(size(1, 1)),
        WorkerEvent::Completed,
        WorkerEvent::Failed,
    ] {
        let mut worker = ready_worker(640, 480);
        assert_eq!(worker.step(event), WorkerAction::Exit(StopReason::OutOfTurn));
        assert_eq!(worker.phase(), Phase::Stopped);
    }
}

#[test]
fn busy_worker_accepts_only_the_outcome_of_its_action() {
    for event in [
        WorkerEvent::Started,
        WorkerEvent::Negotiated(size(1, 1)),
        resized(5, 5),
        redraw(),
        WorkerEvent::Disconnected,
    ] {
        let mut resizing = ready_worker(640, 480);
        resizing.step(resized(800, 600));
        assert_eq!(resizing.step(event), WorkerAction::Exit(StopReason::OutOfTurn));
        assert_eq!(resizing.viewport().config(), Some(config(800, 600)));

        let mut painting = ready_worker(640, 480);
        painting.step(redraw());
        assert_eq!(painting.step(event), WorkerAction::Exit(StopReason::OutOfTurn));
        assert_eq!(painting.viewport().frames(), 0);
    }
}

#[test]
fn mixed_inbox_leaves_last_resize_and_counts_redraws() {
    let mut worker = ready_worker(640, 480);
    let inbox = [
        redraw(),
        resized(800, 600),
        WorkerEvent::Received(ChildEvent::WindowEvent(WindowEvent::Other)),
        redraw(),
        resized(1024, 768),
        redraw(),
    ];
    for event in inbox {
        let action = worker.step(event);
        if action != WorkerAction::Receive {
            assert_eq!(worker.step(WorkerEvent::Completed), WorkerAction::Receive);
        }
    }
    assert_eq!(worker.phase(), Phase::Ready);
    assert_eq!(worker.viewport().config(), Some(config(1024, 768)));
    assert_eq!(worker.viewport().frames(), 3);
}
