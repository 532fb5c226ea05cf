use game_gl::app::{
    AppError, ContextAttributes, DeviceReport, DisplayBackend, GlConfig, GlContext, Lifecycle,
    PhysicalSize, PlatformCommand, Window,
};
use game_gl::buffer::GlIndexBuffer;
use game_gl::game_loop::{Action, GameLoopWrapper, WindowEvent};
use game_gl::gl::STATIC_DRAW;
use game_gl::input::{
    CursorEvent, InputEvent, Key, KeyState, KeyboardEvent, Location, MouseButton, MouseEvent,
    MouseState, TouchEvent, TouchState,
};
use game_gl::opengl::GlResource;

fn report(backend: DisplayBackend) -> DeviceReport {
    DeviceReport {
        window: Ok(Window { size: PhysicalSize { width: 800, height: 600 } }),
        context: Ok(GlContext {
            config: GlConfig { supports_transparency: None, num_samples: 0 },
            attributes: ContextAttributes { api: None },
            backend,
            current: false,
        }),
        surface: Ok(()),
        vsync: true,
    }
}

fn started() -> GameLoopWrapper {
    let mut game_loop = GameLoopWrapper::new();
    assert_eq!(game_loop.run(String::from("Test Example"), false, 1_000), vec![Action::Init]);
    game_loop
}

fn count(actions: &[Action], wanted: Action) -> usize {
    actions.iter().filter(|action| **action == wanted).count()
}

#[test]
fn run_makes_the_controller() {
    let game_loop = started();
    let app = game_loop.app().unwrap();
    assert_eq!(app.lifecycle(), Lifecycle::Uninitialized);
    assert_eq!(app.template().alpha_size, 8);
    assert!(!app.template().transparency);
    assert_eq!(app.window_attributes().title, "Test Example");
    assert!(app.window_attributes().transparent);
    assert!(!game_loop.exit_requested());
}

#[test]
fn nothing_happens_before_the_start() {
    let mut game_loop = GameLoopWrapper::new();
    assert!(game_loop.app().is_none());
    assert_eq!(game_loop.resumed(report(DisplayBackend::Egl)), vec![]);
    assert_eq!(game_loop.suspended(), vec![]);
    assert_eq!(game_loop.window_event(WindowEvent::RedrawRequested), vec![]);
    assert_eq!(game_loop.exiting(), vec![]);
    assert!(game_loop.app().is_none());
}

#[test]
fn one_resume_creates_the_device_once() {
    let mut game_loop = started();
    let actions = game_loop.resumed(report(DisplayBackend::Egl));
    assert_eq!(count(&actions, Action::CreateDevice), 1);
    assert_eq!(actions, vec![Action::CreateDevice]);
    assert!(game_loop.app().unwrap().has_surface_and_context());
}

#[test]
fn resume_suspend_resume_creates_the_device_once_in_all() {
    let mut game_loop = started();
    let mut all = Vec::new();
    all.extend(game_loop.resumed(report(DisplayBackend::Egl)));
    assert!(game_loop.app().unwrap().has_surface_and_context());
    all.extend(game_loop.suspended());
    assert!(!game_loop.app().unwrap().has_surface_and_context());
    all.extend(game_loop.resumed(report(DisplayBackend::Egl)));
    assert!(game_loop.app().unwrap().has_surface_and_context());
    assert_eq!(count(&all, Action::CreateDevice), 1);
    assert_eq!(
        all,
        vec![
            Action::CreateDevice,
            Action::DestroyDevice,
            Action::AssertReleased,
            Action::Platform(PlatformCommand::DropSession),
            Action::Platform(PlatformCommand::MakeNotCurrent),
        ]
    );
}

#[test]
fn resume_while_resumed_is_ignored() {
    let mut game_loop = started();
    game_loop.resumed(report(DisplayBackend::Egl));
    let mut other = report(DisplayBackend::Egl);
    other.window = Ok(Window { size: PhysicalSize { width: 1, height: 1 } });
    assert_eq!(game_loop.resumed(other), vec![]);
    assert_eq!(
        game_loop.app().unwrap().surface_size(),
        Some(PhysicalSize { width: 800, height: 600 })
    );
}

#[test]
fn failed_resume_ends_the_loop() {
    let mut game_loop = started();
    let mut failed = report(DisplayBackend::Egl);
    failed.window = Err(AppError::NoCompatibleConfig);
    assert_eq!(game_loop.resumed(failed), vec![Action::ExitLoop]);
    assert_eq!(game_loop.app().unwrap().exit_state(), Err(AppError::NoCompatibleConfig));
    assert!(!game_loop.app().unwrap().has_surface_and_context());
}

#[test]
fn vsync_failure_is_logged() {
    let mut game_loop = started();
    let mut without_vsync = report(DisplayBackend::Egl);
    without_vsync.vsync = false;
    assert_eq!(
        game_loop.resumed(without_vsync),
        vec![Action::LogVsyncFailure, Action::CreateDevice]
    );
}

#[test]
fn suspend_without_session_is_ignored() {
    let mut game_loop = started();
    assert_eq!(game_loop.suspended(), vec![]);
    game_loop.resumed(report(DisplayBackend::Egl));
    game_loop.suspended();
    assert_eq!(game_loop.suspended(), vec![]);
}

#[test]
fn redraw_renders_and_presents() {
    let mut game_loop = started();
    assert_eq!(game_loop.window_event(WindowEvent::RedrawRequested), vec![]);
    game_loop.resumed(report(DisplayBackend::Egl));
    assert_eq!(
        game_loop.window_event(WindowEvent::RedrawRequested),
        vec![
            Action::Render,
            Action::Platform(PlatformCommand::RequestRedraw),
            Action::Platform(PlatformCommand::SwapBuffers),
        ]
    );
    game_loop.suspended();
    assert_eq!(game_loop.window_event(WindowEvent::RedrawRequested), vec![]);
}

#[test]
fn resize_reaches_surface_then_consumer() {
    let mut game_loop = started();
    game_loop.resumed(report(DisplayBackend::Egl));
    assert_eq!(
        game_loop.window_event(WindowEvent::Resized(PhysicalSize { width: 320, height: 200 })),
        vec![
            Action::Platform(PlatformCommand::ResizeSurface { width: 320, height: 200 }),
            Action::ResizeDevice { width: 320, height: 200 },
        ]
    );
    assert_eq!(
        game_loop.app().unwrap().surface_size(),
        Some(PhysicalSize { width: 320, height: 200 })
    );
}

#[test]
fn resize_to_no_area_is_dropped() {
    let mut game_loop = started();
    game_loop.resumed(report(DisplayBackend::Egl));
    assert_eq!(
        game_loop.window_event(WindowEvent::Resized(PhysicalSize { width: 0, height: 200 })),
        vec![]
    );
    assert_eq!(
        game_loop.window_event(WindowEvent::Resized(PhysicalSize { width: 320, height: 0 })),
        vec![]
    );
    assert_eq!(
        game_loop.app().unwrap().surface_size(),
        Some(PhysicalSize { width: 800, height: 600 })
    );
}

#[test]
fn resize_without_session_does_nothing() {
    let mut game_loop = started();
    assert_eq!(
        game_loop.window_event(WindowEvent::Resized(PhysicalSize { width: 800, height: 600 })),
        vec![]
    );
    assert_eq!(game_loop.app().unwrap().surface_size(), None);
    assert_eq!(game_loop.app().unwrap().lifecycle(), Lifecycle::Uninitialized);
}

#[test]
fn close_request_ends_the_loop() {
    let mut game_loop = started();
    assert_eq!(game_loop.window_event(WindowEvent::CloseRequested), vec![Action::ExitLoop]);
}

#[test]
fn other_events_are_dropped() {
    let mut game_loop = started();
    assert_eq!(game_loop.window_event(WindowEvent::Other), vec![]);
    assert_eq!(game_loop.about_to_wait(1_000).input_events, vec![]);
}

#[test]
fn input_is_queued_until_the_tick() {
    let mut game_loop = started();
    let position = Location { x: 1.5f32.to_bits(), y: 2.5f32.to_bits() };
    let touch = TouchEvent { state: TouchState::Down, location: position, id: 7 };
    let key = KeyboardEvent { state: KeyState::Released, key: Key::Back };
    assert_eq!(game_loop.window_event(WindowEvent::CursorMoved { position }), vec![]);
    assert_eq!(
        game_loop.window_event(WindowEvent::MouseInput {
            state: MouseState::Pressed,
            button: MouseButton::Other(9)
        }),
        vec![]
    );
    assert_eq!(game_loop.window_event(WindowEvent::Touch(touch)), vec![]);
    assert_eq!(game_loop.window_event(WindowEvent::KeyboardInput { event: None }), vec![]);
    assert_eq!(game_loop.window_event(WindowEvent::KeyboardInput { event: Some(key) }), vec![]);

    let frame = game_loop.about_to_wait(1_016);
    assert_eq!(
        frame.input_events,
        vec![
            InputEvent::Cursor(CursorEvent { location: position }),
            InputEvent::Mouse(MouseEvent {
                state: MouseState::Pressed,
                button: MouseButton::Other(9)
            }),
            InputEvent::Touch(touch),
            InputEvent::Keyboard(key),
        ]
    );
    assert_eq!(frame.elapsed_time, 16);

    let next = game_loop.about_to_wait(1_049);
    assert_eq!(next.input_events, vec![]);
    assert_eq!(next.elapsed_time, 33);
}

#[test]
fn clock_that_goes_back_counts_as_no_time() {
    let mut game_loop = started();
    assert_eq!(game_loop.about_to_wait(900).elapsed_time, 0);
    assert_eq!(game_loop.about_to_wait(950).elapsed_time, 50);
}

#[test]
fn exit_request_of_the_consumer() {
    let mut game_loop = started();
    assert!(!game_loop.exit_requested());
    assert!(!game_loop.ctx().request_exit());
    game_loop.ctx().exit();
    assert!(game_loop.exit_requested());
    game_loop.about_to_wait(2_000);
    assert!(game_loop.exit_requested());
}

#[test]
fn exiting_suspends_cleans_up_and_exits_once() {
    let mut game_loop = started();
    game_loop.resumed(report(DisplayBackend::Egl));
    let actions = game_loop.exiting();
    assert_eq!(
        actions,
        vec![
            Action::DestroyDevice,
            Action::AssertReleased,
            Action::Platform(PlatformCommand::DropSession),
            Action::Platform(PlatformCommand::MakeNotCurrent),
            Action::Cleanup,
            Action::Platform(PlatformCommand::DropContext),
            Action::Platform(PlatformCommand::TerminateDisplay),
        ]
    );
    assert_eq!(count(&actions, Action::Cleanup), 1);
    assert_eq!(game_loop.app().unwrap().lifecycle(), Lifecycle::Exited);
    assert_eq!(game_loop.exiting(), vec![]);
    assert_eq!(game_loop.resumed(report(DisplayBackend::Egl)), vec![]);
    assert_eq!(game_loop.suspended(), vec![]);
    assert_eq!(game_loop.window_event(WindowEvent::RedrawRequested), vec![]);
}

#[test]
fn exiting_while_suspended() {
    let mut game_loop = started();
    game_loop.resumed(report(DisplayBackend::Wgl));
    game_loop.suspended();
    assert_eq!(
        game_loop.exiting(),
        vec![Action::Cleanup, Action::Platform(PlatformCommand::DropContext)]
    );
}

#[test]
fn exiting_before_any_resume() {
    let mut game_loop = started();
    assert_eq!(game_loop.exiting(), vec![Action::Cleanup]);
    assert_eq!(game_loop.exiting(), vec![]);
}

#[test]
fn table_counts_the_consumers_resources() {
    let mut game_loop = started();
    game_loop.resumed(report(DisplayBackend::Egl));
    assert_eq!(game_loop.app().unwrap().leaked_resources(), 0);

    // the consumer's create_device
    let gl = game_loop.app_mut().renderer_mut();
    let (mut first, _) = GlIndexBuffer::new(gl, 1, STATIC_DRAW, &[0, 1, 2]);
    let (mut second, _) = GlIndexBuffer::new(gl, 2, STATIC_DRAW, &[0, 1, 2]);
    assert_eq!(game_loop.app().unwrap().renderer().strong_count(), 3);
    assert_eq!(game_loop.app().unwrap().leaked_resources(), 2);

    // the consumer's destroy_device forgets one of them
    game_loop.suspended();
    first.release(game_loop.app_mut().renderer_mut());
    assert_eq!(game_loop.app().unwrap().leaked_resources(), 1);

    game_loop.resumed(report(DisplayBackend::Egl));
    assert_eq!(game_loop.app().unwrap().renderer().strong_count(), 2);
    second.release(game_loop.app_mut().renderer_mut());
    first.release(game_loop.app_mut().renderer_mut());
    assert_eq!(game_loop.app().unwrap().leaked_resources(), 0);
    assert!(game_loop.app().unwrap().renderer().is_unique());
}
