//! The game loop: what is to be done, and in which order, for each event
//! that the platform delivers.
//!
//! The loop owns the device controller, the input events of the current tick
//! and the time of the last tick. It calls nobody: each handler returns the
//! consumer's callbacks and the platform's commands for the embedding
//! program to carry out, one after the other.

use vstd::prelude::*;

use crate::app::{
    App, AppView, ConfigTemplate, DeviceReport, Lifecycle, PhysicalSize, PlatformCommand,
    WindowAttributes,
};
use crate::context::RawGameContext;
use crate::input::{
    CursorEvent, InputEvent, KeyboardEvent, Location, MouseButton, MouseEvent, MouseState,
    TouchEvent,
};

verus! {

/// An event of the window, as the platform delivers it.
#[derive(Clone, Copy, Debug, PartialEq, Eq)]
pub enum WindowEvent {
    RedrawRequested,
    Resized(PhysicalSize),
    CursorMoved { position: Location },
    MouseInput { state: MouseState, button: MouseButton },
    Touch(TouchEvent),
    /// A key went down or up. There is no event for a key without a code.
    KeyboardInput { event: Option<KeyboardEvent> },
    CloseRequested,
    /// Any other event.
    Other,
}

/// One thing for the embedding program to do.
#[derive(Clone, Copy, Debug, PartialEq, Eq, Structural)]
pub enum Action {
    /// Call the consumer's `init`.
    Init,
    /// Call the consumer's `cleanup`.
    Cleanup,
    /// Call the consumer's `create_device` with the function table.
    CreateDevice,
    /// Call the consumer's `destroy_device` with the function table.
    DestroyDevice,
    /// Call the consumer's `render` with the function table.
    Render,
    /// Call the consumer's `resize_device` with the function table.
    ResizeDevice { width: u32, height: u32 },
    /// Carry out a command to the platform.
    Platform(PlatformCommand),
    /// Make sure that every resource was released, see
    /// [`App::leaked_resources`]: one that is left when the context is about
    /// to be torn down is a fatal error.
    AssertReleased,
    /// Log that the swap interval could not be set.
    LogVsyncFailure,
    /// End the event loop.
    ExitLoop,
}

/// What a tick hands to the consumer: the input events since the last tick,
/// in the order in which they came, and the time since the last tick in
/// milliseconds.
#[derive(Debug)]
pub struct Frame {
    pub input_events: Vec<InputEvent>,
    pub elapsed_time: u64,
}

/// The commands to the platform, as actions.
pub open spec fn platform(commands: Seq<PlatformCommand>) -> Seq<Action> {
    commands.map_values(|command: PlatformCommand| Action::Platform(command))
}

/// A handler's outcome: the game loop afterwards and the actions it asks
/// for.
pub struct Step {
    pub next: GameLoopView,
    pub actions: Seq<Action>,
}

/// What the game loop is to a contract.
pub struct GameLoopView {
    pub app: Option<AppView>,
    pub game_time: u64,
    pub input_events: Seq<InputEvent>,
    pub request_exit: bool,
    pub finished: bool,
}

impl GameLoopView {
    /// Whether the device can be resumed: it has no device session, and it
    /// has not exited.
    pub open spec fn can_resume(self) -> bool {
        &&& !self.finished
        &&& self.app matches Some(app)
        &&& app.state is None
        &&& app.display is Init ==> app.context is Some
    }

    /// Whether there is a live device session to render to, to resize and
    /// to suspend.
    pub open spec fn has_device(self) -> bool {
        &&& !self.finished
        &&& self.app matches Some(app)
        &&& app.has_surface_and_context()
    }

    pub open spec fn stay(self) -> Step {
        Step { next: self, actions: Seq::empty() }
    }

    pub open spec fn queue(self, event: InputEvent) -> Step {
        Step {
            next: GameLoopView { input_events: self.input_events.push(event), ..self },
            actions: Seq::empty(),
        }
    }

    /// The start: the controller is made for a window with the given title,
    /// the consumer is initialised, and time starts to count.
    pub open spec fn run(self, title: String, transparency: bool, now: u64) -> Step {
        Step {
            next: GameLoopView {
                app: Some(
                    AppView {
                        template: ConfigTemplate { alpha_size: 8, transparency },
                        window: WindowAttributes { title, transparent: true },
                        display: crate::app::GlDisplayCreationState::Build,
                        context: None,
                        state: None,
                        renderer: None,
                        exit_state: Ok(()),
                    },
                ),
                game_time: now,
                finished: false,
                ..self
            },
            actions: seq![Action::Init],
        }
    }

    /// The platform resumed the application: the device is resumed from
    /// what the platform answered. The consumer creates its device
    /// resources if the function table was built by this resume; a failure
    /// ends the event loop.
    pub open spec fn resumed(self, report: DeviceReport) -> Step {
        if self.can_resume() {
            let step = self.app.unwrap().resume(report);
            Step {
                next: GameLoopView { app: Some(step.app), ..self },
                actions: match step.result {
                    Ok(resumed) => (if resumed.vsync_failed {
                        seq![Action::LogVsyncFailure]
                    } else {
                        Seq::empty()
                    }) + (if resumed.create_device {
                        seq![Action::CreateDevice]
                    } else {
                        Seq::empty()
                    }),
                    Err(_) => seq![Action::ExitLoop],
                },
            }
        } else {
            self.stay()
        }
    }

    /// The platform suspended the application: if there is a device
    /// session, the consumer destroys its device resources, of which none
    /// may be left then, and the device is suspended.
    pub open spec fn suspended(self) -> Step {
        if self.has_device() {
            let app = self.app.unwrap();
            Step {
                next: GameLoopView { app: Some(app.suspend()), ..self },
                actions: seq![Action::DestroyDevice, Action::AssertReleased] + platform(
                    app.suspend_commands(),
                ),
            }
        } else {
            self.stay()
        }
    }

    /// An event of the window. A redraw and a resize go to the device, if
    /// it has a session; a resize to no area is dropped. Input is queued
    /// for the next tick. A request to close ends the event loop.
    pub open spec fn window_event(self, event: WindowEvent) -> Step {
        match event {
            WindowEvent::RedrawRequested => if self.has_device() {
                Step {
                    next: self,
                    actions: seq![Action::Render] + platform(self.app.unwrap().swap_commands()),
                }
            } else {
                self.stay()
            },
            WindowEvent::Resized(size) => if !size.is_empty() && self.has_device() {
                let app = self.app.unwrap();
                Step {
                    next: GameLoopView { app: Some(app.resize(size)), ..self },
                    actions: platform(app.resize_commands(size)) + seq![
                        Action::ResizeDevice { width: size.width, height: size.height },
                    ],
                }
            } else {
                self.stay()
            },
            WindowEvent::CursorMoved { position } => self.queue(
                InputEvent::Cursor(CursorEvent { location: position }),
            ),
            WindowEvent::MouseInput { state, button } => self.queue(
                InputEvent::Mouse(MouseEvent { state, button }),
            ),
            WindowEvent::Touch(touch) => self.queue(InputEvent::Touch(touch)),
            WindowEvent::KeyboardInput { event } => match event {
                Some(event) => self.queue(InputEvent::Keyboard(event)),
                None => self.stay(),
            },
            WindowEvent::CloseRequested => Step { next: self, actions: seq![Action::ExitLoop] },
            WindowEvent::Other => self.stay(),
        }
    }

    /// The time between the last tick and `now`. A clock that went back
    /// counts as no time.
    pub open spec fn elapsed(self, now: u64) -> u64 {
        if now >= self.game_time {
            (now - self.game_time) as u64
        } else {
            0
        }
    }

    /// A tick: the queue of input events is handed out and emptied, and
    /// time moves on to `now`.
    pub open spec fn about_to_wait(self, now: u64) -> GameLoopView {
        GameLoopView { game_time: now, input_events: Seq::empty(), ..self }
    }

    /// The end of the event loop: the device is suspended as on a suspend
    /// of the application, the consumer cleans up, and the device exits.
    /// All of this happens once.
    pub open spec fn exiting(self) -> Step {
        if self.finished || self.app is None {
            self.stay()
        } else {
            let step = self.suspended();
            let app = step.next.app.unwrap();
            if app.context is Some {
                Step {
                    next: GameLoopView { app: Some(app.exit()), finished: true, ..step.next },
                    actions: step.actions + seq![Action::Cleanup] + platform(
                        app.exit_commands(),
                    ),
                }
            } else {
                Step {
                    next: GameLoopView { finished: true, ..step.next },
                    actions: step.actions + seq![Action::Cleanup],
                }
            }
        }
    }
}

/// What the game loop holds between events.
#[derive(Debug)]
pub struct GameLoopData {
    app: Option<App>,
    game_time: u64,
    input_events: Vec<InputEvent>,
}

/// The game loop.
#[derive(Debug)]
pub struct GameLoopWrapper {
    data: GameLoopData,
    ctx: RawGameContext,
    finished: bool,
}

impl GameLoopData {
    fn new() -> (data: GameLoopData)
        ensures
            data.app is None,
            data.game_time == 0,
            data.input_events@ == Seq::<InputEvent>::empty(),
    {
        GameLoopData { app: None, game_time: 0, input_events: Vec::new() }
    }
}

impl View for GameLoopWrapper {
    type V = GameLoopView;

    closed spec fn view(&self) -> GameLoopView {
        GameLoopView {
            app: match self.data.app {
                Some(app) => Some(app@),
                None => None,
            },
            game_time: self.data.game_time,
            input_events: self.data.input_events@,
            request_exit: self.ctx@,
            finished: self.finished,
        }
    }
}

fn push_platform(actions: &mut Vec<Action>, commands: Vec<PlatformCommand>)
    ensures
        final(actions)@ == old(actions)@ + platform(commands@),
{
    let mut i: usize = 0;
    while i < commands.len()
        invariant
            i <= commands@.len(),
            actions@ == old(actions)@ + platform(commands@.take(i as int)),
        decreases commands@.len() - i,
    {
        actions.push(Action::Platform(commands[i]));
        i = i + 1;
        assert(actions@ =~= old(actions)@ + platform(commands@.take(i as int)));
    }
    assert(commands@.take(i as int) =~= commands@);
}

impl GameLoopWrapper {
    /// The game loop's invariant: that of the controller it owns.
    pub closed spec fn wf(&self) -> bool {
        self.data.app matches Some(app) ==> app.wf()
    }

    /// A well-formed game loop has a well-formed view.
    pub proof fn lemma_view_wf(&self)
        requires
            self.wf(),
        ensures
            self@.wf(),
    {
        if let Some(app) = self.data.app {
            app.lemma_view_wf();
        }
    }

    /// A game loop that has not started.
    pub fn new() -> (game_loop: GameLoopWrapper)
        ensures
            game_loop.wf(),
            game_loop@ == (GameLoopView {
                app: None,
                game_time: 0,
                input_events: Seq::empty(),
                request_exit: false,
                finished: false,
            }),
    {
        GameLoopWrapper { data: GameLoopData::new(), ctx: RawGameContext::new(), finished: false }
    }

    /// Starts the game loop at the time `now`, for a window with the given
    /// title, see [`GameLoopView::run`]. `transparency` says whether a
    /// transparent framebuffer is asked for.
    pub fn run(&mut self, title: String, transparency: bool, now: u64) -> (actions: Vec<Action>)
        ensures
            final(self).wf(),
            final(self)@ == old(self)@.run(title, transparency, now).next,
            actions@ == old(self)@.run(title, transparency, now).actions,
    {
        let template = ConfigTemplate { alpha_size: 8, transparency };
        let window = WindowAttributes { title, transparent: true };
        self.data.app = Some(App::new(template, window));
        self.data.game_time = now;
        self.finished = false;
        vec![Action::Init]
    }

    /// See [`GameLoopView::resumed`].
    pub fn resumed(&mut self, report: DeviceReport) -> (actions: Vec<Action>)
        requires
            old(self).wf(),
        ensures
            final(self).wf(),
            final(self)@ == old(self)@.resumed(report).next,
            actions@ == old(self)@.resumed(report).actions,
    {
        if self.finished || self.data.app.is_none() {
            return Vec::new();
        }
        let mut app = self.data.app.take().unwrap();
        let ready = app.lifecycle();
        let mut actions: Vec<Action> = Vec::new();
        proof {
            app.lemma_view_wf();
        }
        match ready {
            Lifecycle::Uninitialized | Lifecycle::ContextCreated | Lifecycle::Suspended => {
                match app.resume(report) {
                    Ok(resumed) => {
                        if resumed.vsync_failed {
                            actions.push(Action::LogVsyncFailure);
                        }
                        if resumed.create_device {
                            actions.push(Action::CreateDevice);
                        }
                    },
                    Err(_) => {
                        actions.push(Action::ExitLoop);
                    },
                }
            },
            _ => {},
        }
        self.data.app = Some(app);
        assert(actions@ =~= old(self)@.resumed(report).actions);
        actions
    }

    /// See [`GameLoopView::suspended`].
    pub fn suspended(&mut self) -> (actions: Vec<Action>)
        requires
            old(self).wf(),
        ensures
            final(self).wf(),
            final(self)@ == old(self)@.suspended().next,
            actions@ == old(self)@.suspended().actions,
    {
        if self.finished || self.data.app.is_none() {
            return Vec::new();
        }
        let mut app = self.data.app.take().unwrap();
        let mut actions: Vec<Action> = Vec::new();
        if app.has_surface_and_context() {
            actions.push(Action::DestroyDevice);
            actions.push(Action::AssertReleased);
            push_platform(&mut actions, app.suspend());
        }
        self.data.app = Some(app);
        assert(actions@ =~= old(self)@.suspended().actions);
        actions
    }

    fn queue(&mut self, event: InputEvent) -> (actions: Vec<Action>)
        requires
            old(self).wf(),
        ensures
            final(self).wf(),
            final(self)@ == old(self)@.queue(event).next,
            actions@ == old(self)@.queue(event).actions,
    {
        self.data.input_events.push(event);
        Vec::new()
    }

    /// See [`GameLoopView::window_event`].
    pub fn window_event(&mut self, event: WindowEvent) -> (actions: Vec<Action>)
        requires
            old(self).wf(),
        ensures
            final(self).wf(),
            final(self)@ == old(self)@.window_event(event).next,
            actions@ == old(self)@.window_event(event).actions,
    {
        match event {
            WindowEvent::RedrawRequested => {
                if self.finished || self.data.app.is_none() {
                    return Vec::new();
                }
                let mut app = self.data.app.take().unwrap();
                let mut actions: Vec<Action> = Vec::new();
                if app.has_surface_and_context() {
                    actions.push(Action::Render);
                    push_platform(&mut actions, app.swap_buffers());
                }
                self.data.app = Some(app);
                assert(actions@ =~= old(self)@.window_event(event).actions);
                actions
            },
            WindowEvent::Resized(size) => {
                if size.is_empty() || self.finished || self.data.app.is_none() {
                    return Vec::new();
                }
                let mut app = self.data.app.take().unwrap();
                let mut actions: Vec<Action> = Vec::new();
                if app.has_surface_and_context() {
                    push_platform(&mut actions, app.resize(size));
                    actions.push(Action::ResizeDevice { width: size.width, height: size.height });
                }
                self.data.app = Some(app);
                assert(actions@ =~= old(self)@.window_event(event).actions);
                actions
            },
            WindowEvent::CursorMoved { position } => self.queue(
                InputEvent::Cursor(CursorEvent { location: position }),
            ),
            WindowEvent::MouseInput { state, button } => self.queue(
                InputEvent::Mouse(MouseEvent { state, button }),
            ),
            WindowEvent::Touch(touch) => self.queue(InputEvent::Touch(touch)),
            WindowEvent::KeyboardInput { event } => match event {
                Some(event) => self.queue(InputEvent::Keyboard(event)),
                None => Vec::new(),
            },
            WindowEvent::CloseRequested => vec![Action::ExitLoop],
            WindowEvent::Other => Vec::new(),
        }
    }

    /// A tick at the time `now`: returns the input events since the last
    /// tick and the time since then, for the consumer's `input` and
    /// `update`, and starts a new tick. After the two callbacks the event
    /// loop ends if the consumer asked for it, see
    /// [`GameLoopWrapper::exit_requested`].
    pub fn about_to_wait(&mut self, now: u64) -> (frame: Frame)
        requires
            old(self).wf(),
        ensures
            final(self).wf(),
            final(self)@ == old(self)@.about_to_wait(now),
            frame.input_events@ == old(self)@.input_events,
            frame.elapsed_time == old(self)@.elapsed(now),
    {
        let elapsed_time = if now >= self.data.game_time {
            now - self.data.game_time
        } else {
            0
        };
        self.data.game_time = now;
        let mut input_events: Vec<InputEvent> = Vec::new();
        core::mem::swap(&mut self.data.input_events, &mut input_events);
        Frame { input_events, elapsed_time }
    }

    /// Whether the consumer asked for the end of the event loop.
    pub fn exit_requested(&self) -> (requested: bool)
        ensures
            requested == self@.request_exit,
    {
        self.ctx.request_exit()
    }

    /// See [`GameLoopView::exiting`].
    pub fn exiting(&mut self) -> (actions: Vec<Action>)
        requires
            old(self).wf(),
        ensures
            final(self).wf(),
            final(self)@ == old(self)@.exiting().next,
            actions@ == old(self)@.exiting().actions,
    {
        if self.finished || self.data.app.is_none() {
            return Vec::new();
        }
        let mut actions = self.suspended();
        let mut app = self.data.app.take().unwrap();
        actions.push(Action::Cleanup);
        if app.context().is_some() {
            push_platform(&mut actions, app.exit());
        }
        self.data.app = Some(app);
        self.finished = true;
        assert(actions@ =~= old(self)@.exiting().actions);
        actions
    }

    /// The consumer's word to the game loop.
    pub fn ctx(&mut self) -> (ctx: &mut RawGameContext)
        ensures
            ctx@ == old(self)@.request_exit,
            final(self)@ == (GameLoopView { request_exit: final(ctx)@, ..old(self)@ }),
            old(self).wf() ==> final(self).wf(),
    {
        &mut self.ctx
    }

    /// The device controller, to resume it and to reach the function
    /// table. The game loop must have started.
    pub fn app_mut(&mut self) -> (app: &mut App)
        requires
            old(self).wf(),
            old(self)@.app is Some,
        ensures
            app.wf(),
            Some(app@) == old(self)@.app,
            final(self)@ == (GameLoopView { app: Some(final(app)@), ..old(self)@ }),
            final(app).wf() ==> final(self).wf(),
    {
        self.data.app.as_mut().unwrap()
    }

    /// The device controller, once the game loop has started.
    pub fn app(&self) -> (app: Option<&App>)
        requires
            self.wf(),
        ensures
            app matches Some(app) ==> app.wf(),
            match app {
                Some(app) => self@.app == Some(app@),
                None => self@.app is None,
            },
    {
        self.data.app.as_ref()
    }
}

//////////////////////////////////////////////////
// Laws of the game loop

/// The input event that an event of the window brings, if it brings one.
pub open spec fn input_of(event: WindowEvent) -> Option<InputEvent> {
    match event {
        WindowEvent::CursorMoved { position } => Some(
            InputEvent::Cursor(CursorEvent { location: position }),
        ),
        WindowEvent::MouseInput { state, button } => Some(
            InputEvent::Mouse(MouseEvent { state, button }),
        ),
        WindowEvent::Touch(touch) => Some(InputEvent::Touch(touch)),
        WindowEvent::KeyboardInput { event: Some(event) } => Some(InputEvent::Keyboard(event)),
        _ => None,
    }
}

/// The input events that events of the window bring, in their order.
pub open spec fn inputs_of(events: Seq<WindowEvent>) -> Seq<InputEvent>
    decreases events.len(),
{
    if events.len() == 0 {
        Seq::empty()
    } else {
        match input_of(events.last()) {
            Some(input) => inputs_of(events.drop_last()).push(input),
            None => inputs_of(events.drop_last()),
        }
    }
}

/// Something that the platform delivers to the game loop.
pub enum Event {
    Resumed(DeviceReport),
    Suspended,
    Window(WindowEvent),
    AboutToWait(u64),
    Exiting,
}

/// How often an action occurs among others.
pub open spec fn occurrences(actions: Seq<Action>, action: Action) -> nat
    decreases actions.len(),
{
    if actions.len() == 0 {
        0
    } else if actions.last() == action {
        occurrences(actions.drop_last(), action) + 1
    } else {
        occurrences(actions.drop_last(), action)
    }
}

impl GameLoopView {
    /// What holds of a game loop at all times: its controller is
    /// well-formed.
    pub open spec fn wf(self) -> bool {
        self.app matches Some(app) ==> app.wf()
    }

    /// The game loop after events of the window.
    pub open spec fn window_events(self, events: Seq<WindowEvent>) -> GameLoopView
        decreases events.len(),
    {
        if events.len() == 0 {
            self
        } else {
            self.window_events(events.drop_last()).window_event(events.last()).next
        }
    }

    /// The handler's outcome for whatever the platform delivers.
    pub open spec fn handle(self, event: Event) -> Step {
        match event {
            Event::Resumed(report) => self.resumed(report),
            Event::Suspended => self.suspended(),
            Event::Window(event) => self.window_event(event),
            Event::AboutToWait(now) => Step { next: self.about_to_wait(now), actions: Seq::empty() },
            Event::Exiting => self.exiting(),
        }
    }

    /// The game loop after a run of events, and the actions that the events
    /// asked for, in their order.
    pub open spec fn handle_all(self, events: Seq<Event>) -> Step
        decreases events.len(),
    {
        if events.len() == 0 {
            self.stay()
        } else {
            let before = self.handle_all(events.drop_last());
            let last = before.next.handle(events.last());
            Step { next: last.next, actions: before.actions + last.actions }
        }
    }

    /// Whether the function table has been built.
    pub open spec fn has_renderer(self) -> bool {
        self.app matches Some(app) && app.renderer is Some
    }
}

/// The consumer destroys its device resources, and is held to have left
/// none, before the device session is dropped and the context is taken off
/// the thread.
pub proof fn lemma_suspended_order(game_loop: GameLoopView)
    requires
        game_loop.wf(),
        game_loop.has_device(),
    ensures
        game_loop.suspended().actions == seq![
            Action::DestroyDevice,
            Action::AssertReleased,
            Action::Platform(PlatformCommand::DropSession),
            Action::Platform(PlatformCommand::MakeNotCurrent),
        ],
        !game_loop.suspended().next.has_device(),
{
    assert(game_loop.suspended().actions =~= seq![
        Action::DestroyDevice,
        Action::AssertReleased,
        Action::Platform(PlatformCommand::DropSession),
        Action::Platform(PlatformCommand::MakeNotCurrent),
    ]);
}

/// The consumer renders only while there is a device session, and the frame
/// is presented after it was rendered.
pub proof fn lemma_redraw_order(game_loop: GameLoopView)
    requires
        game_loop.wf(),
    ensures
        game_loop.window_event(WindowEvent::RedrawRequested).next == game_loop,
        game_loop.window_event(WindowEvent::RedrawRequested).actions == if game_loop.has_device() {
            seq![
                Action::Render,
                Action::Platform(PlatformCommand::RequestRedraw),
                Action::Platform(PlatformCommand::SwapBuffers),
            ]
        } else {
            Seq::empty()
        },
{
    if game_loop.has_device() {
        assert(game_loop.window_event(WindowEvent::RedrawRequested).actions =~= seq![
            Action::Render,
            Action::Platform(PlatformCommand::RequestRedraw),
            Action::Platform(PlatformCommand::SwapBuffers),
        ]);
    }
}

/// The consumer hears of a new size after the surface was given it, and
/// only of a size with an area while there is a device session. Otherwise a
/// resize changes nothing.
pub proof fn lemma_resize_order(game_loop: GameLoopView, size: PhysicalSize)
    requires
        game_loop.wf(),
    ensures
        game_loop.window_event(WindowEvent::Resized(size)).next.wf(),
        game_loop.has_device() && !size.is_empty() ==> {
            &&& game_loop.window_event(WindowEvent::Resized(size)).actions == seq![
                Action::Platform(
                    PlatformCommand::ResizeSurface { width: size.width, height: size.height },
                ),
                Action::ResizeDevice { width: size.width, height: size.height },
            ]
            &&& game_loop.window_event(WindowEvent::Resized(size)).next.app.unwrap().surface_size()
                == Some(size)
        },
        !game_loop.has_device() || size.is_empty() ==> game_loop.window_event(
            WindowEvent::Resized(size),
        ) == game_loop.stay(),
{
    if game_loop.has_device() && !size.is_empty() {
        assert(game_loop.window_event(WindowEvent::Resized(size)).actions =~= seq![
            Action::Platform(
                PlatformCommand::ResizeSurface { width: size.width, height: size.height },
            ),
            Action::ResizeDevice { width: size.width, height: size.height },
        ]);
    }
}

/// A tick hands the consumer every input event that came since the tick
/// before, once and in the order in which they came, and leaves none for
/// the next tick.
pub proof fn lemma_tick_delivers_each_input_once(
    game_loop: GameLoopView,
    events: Seq<WindowEvent>,
    now: u64,
)
    ensures
        game_loop.window_events(events).input_events == game_loop.input_events + inputs_of(events),
        game_loop.window_events(events).about_to_wait(now).input_events == Seq::<
            InputEvent,
        >::empty(),
    decreases events.len(),
{
    if events.len() == 0 {
        assert(game_loop.input_events + inputs_of(events) =~= game_loop.input_events);
    } else {
        lemma_tick_delivers_each_input_once(game_loop, events.drop_last(), now);
        let before = game_loop.window_events(events.drop_last());
        assert(before.window_event(events.last()).next.input_events == match input_of(
            events.last(),
        ) {
            Some(input) => before.input_events.push(input),
            None => before.input_events,
        });
        assert(game_loop.window_events(events).input_events =~= game_loop.input_events
            + inputs_of(events));
    }
}

proof fn lemma_occurrences_add(a: Seq<Action>, b: Seq<Action>, action: Action)
    ensures
        occurrences(a + b, action) == occurrences(a, action) + occurrences(b, action),
    decreases b.len(),
{
    if b.len() == 0 {
        assert(a + b =~= a);
    } else {
        assert((a + b).drop_last() =~= a + b.drop_last());
        lemma_occurrences_add(a, b.drop_last(), action);
    }
}

proof fn lemma_occurrences_absent(actions: Seq<Action>, action: Action)
    requires
        forall|i: int| 0 <= i < actions.len() ==> actions[i] != action,
    ensures
        occurrences(actions, action) == 0,
    decreases actions.len(),
{
    if actions.len() > 0 {
        lemma_occurrences_absent(actions.drop_last(), action);
    }
}

proof fn lemma_platform_absent(commands: Seq<PlatformCommand>, action: Action)
    requires
        !(action is Platform),
    ensures
        occurrences(platform(commands), action) == 0,
{
    lemma_occurrences_absent(platform(commands), action);
}

/// What one handler asks of the consumer: to create the device resources
/// if and only if the handler builds the function table, to clean up if and
/// only if it finishes the game loop, and to render only while there is a
/// device session. The function table stays once it is built, and a game
/// loop that has finished stays so.
pub proof fn lemma_handle_once(game_loop: GameLoopView, event: Event)
    requires
        game_loop.wf(),
    ensures
        game_loop.handle(event).next.wf(),
        game_loop.has_renderer() ==> game_loop.handle(event).next.has_renderer(),
        game_loop.finished ==> game_loop.handle(event).next.finished,
        occurrences(game_loop.handle(event).actions, Action::CreateDevice) == if
            !game_loop.has_renderer() && game_loop.handle(event).next.has_renderer() {
            1nat
        } else {
            0nat
        },
        occurrences(game_loop.handle(event).actions, Action::Cleanup) == if !game_loop.finished
            && game_loop.handle(event).next.finished {
            1nat
        } else {
            0nat
        },
        !game_loop.has_device() ==> occurrences(game_loop.handle(event).actions, Action::Render)
            == 0,
{
    let step = game_loop.handle(event);
    reveal_with_fuel(occurrences, 8);
    match event {
        Event::Resumed(report) => {
            if game_loop.can_resume() {
                crate::app::lemma_resume(game_loop.app.unwrap(), report);
                crate::app::lemma_resume_succeeds(game_loop.app.unwrap(), report);
                let result = game_loop.app.unwrap().resume(report).result;
                match result {
                    Ok(resumed) => {
                        if resumed.vsync_failed && resumed.create_device {
                            assert(step.actions =~= seq![
                                Action::LogVsyncFailure,
                                Action::CreateDevice,
                            ]);
                        } else if resumed.vsync_failed {
                            assert(step.actions =~= seq![Action::LogVsyncFailure]);
                        } else if resumed.create_device {
                            assert(step.actions =~= seq![Action::CreateDevice]);
                        } else {
                            assert(step.actions =~= Seq::<Action>::empty());
                        }
                    },
                    Err(_) => {},
                }
            }
        },
        Event::Suspended => {
            if game_loop.has_device() {
                lemma_suspended_order(game_loop);
                crate::app::lemma_suspend(game_loop.app.unwrap());
            }
        },
        Event::Window(event) => {
            match event {
                WindowEvent::RedrawRequested => {
                    lemma_redraw_order(game_loop);
                },
                WindowEvent::Resized(size) => {
                    lemma_resize_order(game_loop, size);
                    if game_loop.has_device() && !size.is_empty() {
                        crate::app::lemma_resize(game_loop.app.unwrap(), size);
                    }
                },
                _ => {},
            }
        },
        Event::AboutToWait(_) => {},
        Event::Exiting => {
            if !(game_loop.finished || game_loop.app is None) {
                let suspended = game_loop.suspended();
                if game_loop.has_device() {
                    lemma_suspended_order(game_loop);
                    crate::app::lemma_suspend(game_loop.app.unwrap());
                }
                let app = suspended.next.app.unwrap();
                let head = suspended.actions + seq![Action::Cleanup];
                lemma_occurrences_add(suspended.actions, seq![Action::Cleanup], Action::CreateDevice);
                lemma_occurrences_add(suspended.actions, seq![Action::Cleanup], Action::Cleanup);
                lemma_occurrences_add(suspended.actions, seq![Action::Cleanup], Action::Render);
                if app.context is Some {
                    crate::app::lemma_exit(app);
                    let exit = platform(app.exit_commands());
                    lemma_platform_absent(app.exit_commands(), Action::CreateDevice);
                    lemma_platform_absent(app.exit_commands(), Action::Cleanup);
                    lemma_platform_absent(app.exit_commands(), Action::Render);
                    lemma_occurrences_add(head, exit, Action::CreateDevice);
                    lemma_occurrences_add(head, exit, Action::Cleanup);
                    lemma_occurrences_add(head, exit, Action::Render);
                }
            }
        },
    }
}

/// Whatever the platform delivers, and in whatever order, the consumer is
/// asked to create its device resources at most once: when the function
/// table is built, which is by the first resume that succeeds, and never
/// when there is a table already. Until then it is not asked to render. It
/// is asked to clean up at most once as well: when the game loop finishes.
pub proof fn lemma_device_created_once(game_loop: GameLoopView, events: Seq<Event>)
    requires
        game_loop.wf(),
    ensures
        game_loop.handle_all(events).next.wf(),
        game_loop.has_renderer() ==> game_loop.handle_all(events).next.has_renderer(),
        game_loop.finished ==> game_loop.handle_all(events).next.finished,
        occurrences(game_loop.handle_all(events).actions, Action::CreateDevice) == if
            !game_loop.has_renderer() && game_loop.handle_all(events).next.has_renderer() {
            1nat
        } else {
            0nat
        },
        occurrences(game_loop.handle_all(events).actions, Action::Cleanup) == if
            !game_loop.finished && game_loop.handle_all(events).next.finished {
            1nat
        } else {
            0nat
        },
        !game_loop.handle_all(events).next.has_renderer() ==> occurrences(
            game_loop.handle_all(events).actions,
            Action::Render,
        ) == 0,
    decreases events.len(),
{
    if events.len() > 0 {
        lemma_device_created_once(game_loop, events.drop_last());
        let before = game_loop.handle_all(events.drop_last());
        let last = before.next.handle(events.last());
        lemma_handle_once(before.next, events.last());
        lemma_occurrences_add(before.actions, last.actions, Action::CreateDevice);
        lemma_occurrences_add(before.actions, last.actions, Action::Cleanup);
        lemma_occurrences_add(before.actions, last.actions, Action::Render);
    }
}

} // verus!
