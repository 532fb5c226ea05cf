//! The device lifecycle: picking a framebuffer configuration, the order in
//! which context profiles are tried, and the controller that takes the
//! context and its device session through resume, suspend, resize and exit.
//!
//! The controller never talks to the platform. Each operation takes what the
//! platform answered and returns the commands that the platform is to carry
//! out next, in order.

use vstd::pervasive::unreached;
use vstd::prelude::*;

use crate::opengl::{Gl, GlView};

verus! {

//////////////////////////////////////////////////
// Plain values

/// A size in physical pixels.
#[derive(Clone, Copy, Debug, PartialEq, Eq, Structural)]
pub struct PhysicalSize {
    pub width: u32,
    pub height: u32,
}

impl PhysicalSize {
    pub open spec fn is_empty_spec(self) -> bool {
        self.width == 0 || self.height == 0
    }

    /// Whether the size has no area.
    #[verifier::when_used_as_spec(is_empty_spec)]
    pub fn is_empty(self) -> (empty: bool)
        ensures
            empty == self.is_empty_spec(),
    {
        self.width == 0 || self.height == 0
    }
}

/// What is asked of a framebuffer configuration.
#[derive(Clone, Copy, Debug, PartialEq, Eq, Structural)]
pub struct ConfigTemplate {
    pub alpha_size: u8,
    pub transparency: bool,
}

/// What is asked of a window.
#[derive(Debug)]
pub struct WindowAttributes {
    pub title: String,
    pub transparent: bool,
}

/// A framebuffer configuration, as far as the choice between configurations
/// looks at it.
#[derive(Clone, Copy, Debug, PartialEq, Eq, Structural)]
pub struct GlConfig {
    /// Whether the configuration supports transparency, where the platform
    /// can tell.
    pub supports_transparency: Option<bool>,
    /// The number of samples of a multisampled pixel.
    pub num_samples: u8,
}

#[derive(Clone, Copy, Debug, PartialEq, Eq, Structural)]
pub struct Version {
    pub major: u8,
    pub minor: u8,
}

/// The programming interface that a context is asked to offer, with the
/// version where a certain one is wanted.
#[derive(Clone, Copy, Debug, PartialEq, Eq, Structural)]
pub enum ContextApi {
    OpenGl(Option<Version>),
    Gles(Option<Version>),
}

/// What is asked of a context. Without an interface the platform's default
/// is taken, a core profile.
#[derive(Clone, Copy, Debug, PartialEq, Eq, Structural)]
pub struct ContextAttributes {
    pub api: Option<ContextApi>,
}

/// The platform's way to its displays.
#[derive(Clone, Copy, Debug, PartialEq, Eq, Structural)]
pub enum DisplayBackend {
    Egl,
    Glx,
    Wgl,
    Cgl,
}

/// Why the device could not be brought up.
#[derive(Clone, Copy, Debug, PartialEq, Eq, Structural)]
pub enum AppError {
    /// The platform has no configuration that fits the template.
    NoCompatibleConfig,
    /// The platform made no context, whichever profile was asked for.
    NoUsableContext,
    /// The platform could not make the display or the window.
    Window,
    /// The platform could not make the surface, or the window has no area.
    Surface,
    /// The context could not be made current on the surface.
    MakeCurrent,
}

/// A command to the platform.
#[derive(Clone, Copy, Debug, PartialEq, Eq, Structural)]
pub enum PlatformCommand {
    /// Destroy the surface and the window of the device session.
    DropSession,
    /// Take the context off the thread.
    MakeNotCurrent,
    /// Ask the window for a redraw.
    RequestRedraw,
    /// Present the surface.
    SwapBuffers,
    /// Give the surface a new size.
    ResizeSurface { width: u32, height: u32 },
    /// Give up the context.
    DropContext,
    /// Close the connection to the display.
    TerminateDisplay,
}

//////////////////////////////////////////////////
// Choice of the configuration

impl GlConfig {
    pub open spec fn transparent_spec(self) -> bool {
        self.supports_transparency == Some(true)
    }

    /// Whether the configuration is known to support transparency.
    #[verifier::when_used_as_spec(transparent_spec)]
    pub fn transparent(self) -> (transparent: bool)
        ensures
            transparent == self.transparent_spec(),
    {
        match self.supports_transparency {
            Some(transparent) => transparent,
            None => false,
        }
    }
}

/// Whether `a` is to be taken rather than `b`: a configuration that supports
/// transparency goes before one that does not, whatever their sample counts;
/// of two that agree in that, the one with more samples goes first.
pub open spec fn preferred(a: GlConfig, b: GlConfig) -> bool {
    ||| a.transparent() && !b.transparent()
    ||| a.transparent() == b.transparent() && a.num_samples > b.num_samples
}

/// Whether the configuration at index `i` is the one to pick: none of the
/// others is preferred to it, and it is preferred to each one before it, so
/// that of several that are equally good the first one is picked.
pub open spec fn is_pick(configs: Seq<GlConfig>, i: int) -> bool {
    &&& 0 <= i < configs.len()
    &&& forall|j: int| 0 <= j < configs.len() ==> !preferred(#[trigger] configs[j], configs[i])
    &&& forall|j: int| 0 <= j < i ==> preferred(configs[i], #[trigger] configs[j])
}

/// There is at most one configuration to pick.
pub proof fn lemma_pick_unique(configs: Seq<GlConfig>, i: int, j: int)
    requires
        is_pick(configs, i),
        is_pick(configs, j),
    ensures
        i == j,
{
    if i < j {
        assert(preferred(configs[j], configs[i]));
        assert(!preferred(configs[j], configs[i]));
    } else if j < i {
        assert(preferred(configs[i], configs[j]));
        assert(!preferred(configs[i], configs[j]));
    }
}

/// The picked configuration supports transparency if and only if one of the
/// candidates does, and no candidate that agrees with it in that has more
/// samples.
pub proof fn lemma_pick_is_best(configs: Seq<GlConfig>, i: int)
    requires
        is_pick(configs, i),
    ensures
        configs[i].transparent() <==> exists|j: int|
            0 <= j < configs.len() && (#[trigger] configs[j]).transparent(),
        forall|j: int|
            0 <= j < configs.len() && (#[trigger] configs[j]).transparent()
                == configs[i].transparent() ==> configs[j].num_samples <= configs[i].num_samples,
{
    if exists|j: int| 0 <= j < configs.len() && (#[trigger] configs[j]).transparent() {
        let j = choose|j: int| 0 <= j < configs.len() && (#[trigger] configs[j]).transparent();
        assert(!preferred(configs[j], configs[i]));
    }
    assert forall|j: int|
        0 <= j < configs.len() && (#[trigger] configs[j]).transparent()
            == configs[i].transparent() implies configs[j].num_samples
        <= configs[i].num_samples by {
        assert(!preferred(configs[j], configs[i]));
    }
}

/// Picks one of the configurations that the platform offers, which must be
/// at least one, and returns its index.
pub fn gl_config_picker(configs: &[GlConfig]) -> (picked: usize)
    requires
        configs@.len() > 0,
    ensures
        is_pick(configs@, picked as int),
{
    let mut accum: usize = 0;
    let mut i: usize = 1;
    while i < configs.len()
        invariant
            1 <= i <= configs@.len(),
            is_pick(configs@.take(i as int), accum as int),
        decreases configs@.len() - i,
    {
        let config = configs[i];
        let best = configs[accum];
        let transparency_check = config.transparent() && !best.transparent();
        let ghost before = configs@.take(i as int);
        let ghost after = configs@.take(i + 1);
        proof {
            assert(best == before[accum as int]);
            assert forall|j: int| 0 <= j < i implies #[trigger] after[j] == before[j] by {}
            assert(after[i as int] == config);
        }
        if transparency_check || (config.transparent() == best.transparent() && config.num_samples
            > best.num_samples) {
            proof {
                assert forall|j: int| 0 <= j < after.len() implies !preferred(
                    #[trigger] after[j],
                    after[i as int],
                ) by {
                    if j < i {
                        assert(!preferred(before[j], before[accum as int]));
                    }
                }
                assert forall|j: int| 0 <= j < i implies preferred(
                    after[i as int],
                    #[trigger] after[j],
                ) by {
                    assert(!preferred(before[j], before[accum as int]));
                }
            }
            accum = i;
        } else {
            proof {
                assert forall|j: int| 0 <= j < after.len() implies !preferred(
                    #[trigger] after[j],
                    after[accum as int],
                ) by {
                    if j < i {
                        assert(!preferred(before[j], before[accum as int]));
                    }
                }
                assert forall|j: int| 0 <= j < accum implies preferred(
                    after[accum as int],
                    #[trigger] after[j],
                ) by {
                    assert(preferred(before[accum as int], before[j]));
                }
            }
        }
        i = i + 1;
    }
    assert(configs@.take(i as int) =~= configs@);
    accum
}

/// Selects the configuration for the device from those that the platform
/// found to fit the template. Without any there is no device.
pub fn select_config(configs: &[GlConfig]) -> (selected: Result<GlConfig, AppError>)
    ensures
        configs@.len() == 0 ==> selected == Err::<GlConfig, AppError>(AppError::NoCompatibleConfig),
        configs@.len() > 0 ==> exists|i: int|
            is_pick(configs@, i) && selected == Ok::<GlConfig, AppError>(configs@[i]),
{
    if configs.len() == 0 {
        Err(AppError::NoCompatibleConfig)
    } else {
        let picked = gl_config_picker(configs);
        Ok(configs[picked])
    }
}

//////////////////////////////////////////////////
// Creation of the context

/// A context: the configuration it was made for, what was asked of it, the
/// backend of its display, and whether it is current.
#[derive(Clone, Copy, Debug, PartialEq, Eq, Structural)]
pub struct GlContext {
    pub config: GlConfig,
    pub attributes: ContextAttributes,
    pub backend: DisplayBackend,
    pub current: bool,
}

/// The attributes with which a context is asked for, in the order in which
/// they are tried: the platform's default, a core profile; then the profile
/// for embedded systems; then, for old devices that know neither, version
/// 2.1.
pub open spec fn context_ladder() -> Seq<ContextAttributes> {
    seq![
        ContextAttributes { api: None },
        ContextAttributes { api: Some(ContextApi::Gles(None)) },
        ContextAttributes { api: Some(ContextApi::OpenGl(Some(Version { major: 2, minor: 1 }))) },
    ]
}

/// The attributes to ask for after `failed` attempts have failed, and none
/// when every profile has been tried.
pub fn context_attributes(failed: usize) -> (attributes: Option<ContextAttributes>)
    ensures
        failed < context_ladder().len() ==> attributes == Some(context_ladder()[failed as int]),
        failed >= context_ladder().len() ==> attributes is None,
{
    if failed == 0 {
        Some(ContextAttributes { api: None })
    } else if failed == 1 {
        Some(ContextAttributes { api: Some(ContextApi::Gles(None)) })
    } else if failed == 2 {
        Some(
            ContextAttributes {
                api: Some(ContextApi::OpenGl(Some(Version { major: 2, minor: 1 }))),
            },
        )
    } else {
        None
    }
}

/// Whether attempt `i` is the one that made the context: it succeeded, and
/// every attempt before it failed.
pub open spec fn first_success(outcomes: Seq<bool>, i: int) -> bool {
    &&& 0 <= i < outcomes.len()
    &&& i < context_ladder().len()
    &&& outcomes[i]
    &&& forall|j: int| 0 <= j < i ==> !outcomes[j]
}

/// Makes the context for a configuration from the outcomes of the attempts,
/// `outcomes[i]` telling whether the attempt with the attributes
/// `context_ladder()[i]` succeeded. The first success is taken; the context
/// is not current. When every profile has been tried in vain there is no
/// device.
pub fn create_gl_context(config: GlConfig, backend: DisplayBackend, outcomes: &[bool]) -> (context:
    Result<GlContext, AppError>)
    ensures
        match context {
            Ok(context) => exists|i: int|
                first_success(outcomes@, i) && context == (GlContext {
                    config,
                    attributes: context_ladder()[i],
                    backend,
                    current: false,
                }),
            Err(error) => error == AppError::NoUsableContext && forall|i: int|
                0 <= i < outcomes@.len() && i < context_ladder().len() ==> !outcomes@[i],
        },
{
    let mut failed: usize = 0;
    while failed < outcomes.len()
        invariant
            failed <= outcomes@.len(),
            failed <= 3,
            forall|j: int| 0 <= j < failed ==> !outcomes@[j],
        decreases outcomes@.len() - failed,
    {
        match context_attributes(failed) {
            Some(attributes) => {
                if outcomes[failed] {
                    assert(first_success(outcomes@, failed as int));
                    return Ok(GlContext { config, attributes, backend, current: false });
                }
            },
            None => {
                return Err(AppError::NoUsableContext);
            },
        }
        failed = failed + 1;
    }
    Err(AppError::NoUsableContext)
}

//////////////////////////////////////////////////
// The controller

/// A window, as far as the controller looks at it: its inner size.
#[derive(Clone, Copy, Debug, PartialEq, Eq, Structural)]
pub struct Window {
    pub size: PhysicalSize,
}

/// A device session: a window and the surface that draws into it. The two
/// are made together and destroyed together.
#[derive(Clone, Copy, Debug, PartialEq, Eq, Structural)]
pub struct AppState {
    pub window: Window,
    pub surface: PhysicalSize,
}

#[derive(Clone, Copy, Debug, PartialEq, Eq, Structural)]
pub enum GlDisplayCreationState {
    /// The display was not built yet.
    Build,
    /// The display was already made for the application.
    Init,
}

/// Where the device is in its life. The window and the context of the
/// first resume are made in one step, so that there is nothing to see in
/// between.
#[derive(Clone, Copy, Debug, PartialEq, Eq, Structural)]
pub enum Lifecycle {
    /// Nothing was made yet.
    Uninitialized,
    /// The context was made, and no resume has succeeded yet: the context
    /// is not current, and there is neither device session nor function
    /// table.
    ContextCreated,
    /// The context exists and is not current; there is no device session.
    Suspended,
    /// The context is current on the surface of a live device session.
    Resumed,
    /// The context was given up.
    Exited,
}

/// What the platform answered while it carried out a resume.
#[derive(Clone, Copy, Debug, PartialEq, Eq)]
pub struct DeviceReport {
    /// The window, or why there is none. On the first resume the display is
    /// made with it.
    pub window: Result<Window, AppError>,
    /// The context that was made for the new display. It is looked at on
    /// the first resume only: later resumes keep the context they have.
    pub context: Result<GlContext, AppError>,
    /// Whether the surface was made and the context made current on it.
    pub surface: Result<(), AppError>,
    /// Whether the surface accepted to wait for the vertical blank.
    pub vsync: bool,
}

/// What a resume that succeeded asks of the caller.
#[derive(Clone, Copy, Debug, PartialEq, Eq, Structural)]
pub struct Resumed {
    /// The function table was built by this resume: the consumer is to
    /// create its device resources.
    pub create_device: bool,
    /// The swap interval could not be set. This is to be logged, no more.
    pub vsync_failed: bool,
}

/// The outcome of making the window: the controller afterwards, and the
/// window with the configuration to make its surface with, if there is one.
pub struct WindowStep {
    pub app: AppView,
    pub made: Option<(Window, GlConfig)>,
}

/// The outcome of a resume: the controller afterwards, and what the resume
/// returns.
pub struct ResumeStep {
    pub app: AppView,
    pub result: Result<Resumed, AppError>,
}

/// What the controller is to a contract.
pub struct AppView {
    pub template: ConfigTemplate,
    pub window: WindowAttributes,
    pub display: GlDisplayCreationState,
    pub context: Option<GlContext>,
    pub state: Option<AppState>,
    pub renderer: Option<GlView>,
    pub exit_state: Result<(), AppError>,
}

impl AppView {
    /// What holds of a controller at all times: a live device session has a
    /// current context, a surface with an area and a function table;
    /// without a session the context, if there is one, is not current; and
    /// there is no context before the display was made.
    pub open spec fn wf(self) -> bool {
        &&& self.display is Build ==> self.context is None
        &&& self.state is Some ==> self.context is Some
        &&& self.context matches Some(context) ==> (context.current <==> self.state is Some)
        &&& self.state matches Some(state) ==> !state.surface.is_empty()
        &&& self.state is Some ==> self.renderer is Some
    }

    pub open spec fn lifecycle(self) -> Lifecycle {
        if self.context is None {
            if self.display is Build {
                Lifecycle::Uninitialized
            } else {
                Lifecycle::Exited
            }
        } else if self.state is Some {
            Lifecycle::Resumed
        } else if self.renderer is Some {
            Lifecycle::Suspended
        } else {
            Lifecycle::ContextCreated
        }
    }

    pub open spec fn has_surface_and_context(self) -> bool {
        self.context is Some && self.state is Some
    }

    /// The size of the surface of the live device session.
    pub open spec fn surface_size(self) -> Option<PhysicalSize> {
        match self.state {
            Some(state) => Some(state.surface),
            None => None,
        }
    }

    /// The controller after a fatal error: the error is kept for the exit.
    pub open spec fn failed(self, error: AppError) -> AppView {
        AppView { exit_state: Err(error), ..self }
    }

    /// Making the window. The first time the display is made with it, and
    /// the context that was made for the display is kept, not current. Later
    /// the window is made for the configuration of the context that exists.
    pub open spec fn create_window(
        self,
        window: Result<Window, AppError>,
        context: Result<GlContext, AppError>,
    ) -> WindowStep {
        match self.display {
            GlDisplayCreationState::Build => match window {
                Ok(made) => match context {
                    Ok(context) => WindowStep {
                        app: AppView {
                            display: GlDisplayCreationState::Init,
                            context: Some(GlContext { current: false, ..context }),
                            ..self
                        },
                        made: Some((made, context.config)),
                    },
                    Err(error) => WindowStep { app: self.failed(error), made: None },
                },
                Err(error) => WindowStep { app: self.failed(error), made: None },
            },
            GlDisplayCreationState::Init => match window {
                Ok(made) => WindowStep { app: self, made: Some((made, self.context.unwrap().config)) },
                Err(error) => WindowStep { app: self.failed(error), made: None },
            },
        }
    }

    /// The function table is built if there is none, and kept if there is
    /// one.
    pub open spec fn create_renderer(self) -> AppView {
        match self.renderer {
            Some(_) => self,
            None => AppView {
                renderer: Some(GlView { issued: 0, live: Set::empty() }),
                ..self
            },
        }
    }

    /// A resume, from what the platform answered.
    pub open spec fn resume(self, report: DeviceReport) -> ResumeStep {
        let step = self.create_window(report.window, report.context);
        match step.made {
            None => ResumeStep { app: step.app, result: Err(step.app.exit_state->Err_0) },
            Some(made) => {
                let window = made.0;
                if window.size.is_empty() {
                    ResumeStep {
                        app: step.app.failed(AppError::Surface),
                        result: Err(AppError::Surface),
                    }
                } else {
                    match report.surface {
                        Err(error) => ResumeStep { app: step.app.failed(error), result: Err(error) },
                        Ok(_) => ResumeStep {
                            app: AppView {
                                context: Some(
                                    GlContext { current: true, ..step.app.context.unwrap() },
                                ),
                                state: Some(AppState { window, surface: window.size }),
                                ..step.app.create_renderer()
                            },
                            result: Ok(
                                Resumed {
                                    create_device: self.renderer is None,
                                    vsync_failed: !report.vsync,
                                },
                            ),
                        },
                    }
                }
            },
        }
    }

    /// A suspend: the device session is dropped and the context is no longer
    /// current. The function table stays.
    pub open spec fn suspend(self) -> AppView {
        AppView {
            state: None,
            context: Some(GlContext { current: false, ..self.context.unwrap() }),
            ..self
        }
    }

    pub open spec fn suspend_commands(self) -> Seq<PlatformCommand> {
        if self.state is Some {
            seq![PlatformCommand::DropSession, PlatformCommand::MakeNotCurrent]
        } else {
            seq![PlatformCommand::MakeNotCurrent]
        }
    }

    /// A resize. It reaches the surface only if there is a device session
    /// and the new size has an area.
    pub open spec fn resize(self, size: PhysicalSize) -> AppView {
        if self.state is Some && !size.is_empty() {
            AppView { state: Some(AppState { window: Window { size }, surface: size }), ..self }
        } else {
            self
        }
    }

    pub open spec fn resize_commands(self, size: PhysicalSize) -> Seq<PlatformCommand> {
        if self.state is Some && !size.is_empty() {
            seq![PlatformCommand::ResizeSurface { width: size.width, height: size.height }]
        } else {
            Seq::empty()
        }
    }

    pub open spec fn swap_commands(self) -> Seq<PlatformCommand> {
        if self.state is Some {
            seq![PlatformCommand::RequestRedraw, PlatformCommand::SwapBuffers]
        } else {
            Seq::empty()
        }
    }

    /// The exit: the context and the device session are given up.
    pub open spec fn exit(self) -> AppView {
        AppView { state: None, context: None, ..self }
    }

    /// The commands of the exit. Where the display is reached through EGL
    /// its connection is closed at the end, and only there.
    pub open spec fn exit_commands(self) -> Seq<PlatformCommand> {
        seq![PlatformCommand::DropContext] + (if self.state is Some {
            seq![PlatformCommand::DropSession]
        } else {
            Seq::empty()
        }) + (if self.context.unwrap().backend == DisplayBackend::Egl {
            seq![PlatformCommand::TerminateDisplay]
        } else {
            Seq::empty()
        })
    }
}

/// The device lifecycle controller. It owns the context, the device session
/// and the function table, and takes them through the life of the device.
#[derive(Debug)]
pub struct App {
    template: ConfigTemplate,
    window: WindowAttributes,
    display: GlDisplayCreationState,
    context: Option<GlContext>,
    state: Option<AppState>,
    renderer: Option<Gl>,
    exit_state: Result<(), AppError>,
}

impl View for App {
    type V = AppView;

    closed spec fn view(&self) -> AppView {
        AppView {
            template: self.template,
            window: self.window,
            display: self.display,
            context: self.context,
            state: self.state,
            renderer: match self.renderer {
                Some(gl) => Some(gl@),
                None => None,
            },
            exit_state: self.exit_state,
        }
    }
}

impl App {
    /// The controller's invariant: that of its view, and that of the
    /// function table it owns.
    pub closed spec fn wf(&self) -> bool {
        &&& self@.wf()
        &&& self.renderer matches Some(gl) ==> gl.wf()
    }

    /// A well-formed controller has a well-formed view.
    pub proof fn lemma_view_wf(&self)
        requires
            self.wf(),
        ensures
            self@.wf(),
    {
    }

    /// A controller for a device that is yet to be made.
    pub fn new(template: ConfigTemplate, window: WindowAttributes) -> (app: App)
        ensures
            app.wf(),
            app@ == (AppView {
                template,
                window,
                display: GlDisplayCreationState::Build,
                context: None,
                state: None,
                renderer: None,
                exit_state: Ok(()),
            }),
    {
        App {
            template,
            window,
            display: GlDisplayCreationState::Build,
            exit_state: Ok(()),
            context: None,
            state: None,
            renderer: None,
        }
    }

    /// What is asked of the configuration.
    pub fn template(&self) -> (template: ConfigTemplate)
        ensures
            template == self@.template,
    {
        self.template
    }

    /// What is asked of the window.
    pub fn window_attributes(&self) -> (window: &WindowAttributes)
        ensures
            *window == self@.window,
    {
        &self.window
    }

    /// Whether the coming resume has to make the display, or only a window
    /// for the configuration of the context that exists.
    pub fn display(&self) -> (display: GlDisplayCreationState)
        ensures
            display == self@.display,
    {
        self.display
    }

    pub fn context(&self) -> (context: Option<GlContext>)
        ensures
            context == self@.context,
    {
        self.context
    }

    /// The error that ended the device, if one did.
    pub fn exit_state(&self) -> (exit_state: Result<(), AppError>)
        ensures
            exit_state == self@.exit_state,
    {
        self.exit_state
    }

    pub fn lifecycle(&self) -> (lifecycle: Lifecycle)
        ensures
            lifecycle == self@.lifecycle(),
    {
        if self.context.is_none() {
            match self.display {
                GlDisplayCreationState::Build => Lifecycle::Uninitialized,
                GlDisplayCreationState::Init => Lifecycle::Exited,
            }
        } else if self.state.is_some() {
            Lifecycle::Resumed
        } else if self.renderer.is_some() {
            Lifecycle::Suspended
        } else {
            Lifecycle::ContextCreated
        }
    }

    /// Takes in the window that the platform made, see
    /// [`AppView::create_window`]. Returns the window and the configuration
    /// to make its surface with, or nothing after a failure, which is kept
    /// as the reason to exit.
    pub fn create_window(
        &mut self,
        window: Result<Window, AppError>,
        context: Result<GlContext, AppError>,
    ) -> (made: Option<(Window, GlConfig)>)
        requires
            old(self).wf(),
            old(self)@.display is Init ==> old(self)@.context is Some,
            old(self)@.state is None,
        ensures
            final(self).wf(),
            final(self)@ == old(self)@.create_window(window, context).app,
            made == old(self)@.create_window(window, context).made,
    {
        let (window, gl_config) = match self.display {
            GlDisplayCreationState::Build => {
                let (window, context) = match window {
                    Ok(window) => match context {
                        Ok(context) => (window, context),
                        Err(err) => {
                            self.exit_state = Err(err);
                            return None;
                        },
                    },
                    Err(err) => {
                        self.exit_state = Err(err);
                        return None;
                    },
                };
                self.display = GlDisplayCreationState::Init;
                self.context = Some(GlContext { current: false, ..context });
                (window, context.config)
            },
            GlDisplayCreationState::Init => {
                let gl_config = self.context.unwrap().config;
                match window {
                    Ok(window) => (window, gl_config),
                    Err(err) => {
                        self.exit_state = Err(err);
                        return None;
                    },
                }
            },
        };
        Some((window, gl_config))
    }

    /// Builds the function table unless there is one. Returns whether it
    /// was built now.
    pub fn create_renderer(&mut self) -> (created: bool)
        requires
            old(self).wf(),
        ensures
            final(self).wf(),
            final(self)@ == old(self)@.create_renderer(),
            created == (old(self)@.renderer is None),
    {
        if self.renderer.is_none() {
            self.renderer = Some(Gl::new());
            true
        } else {
            false
        }
    }

    /// Resumes the device from what the platform answered, see
    /// [`AppView::resume`]. There must be no device session, and the device
    /// must not have exited.
    ///
    /// After a success the device session is live and the context current.
    /// A failure is returned and kept as the reason to exit.
    pub fn resume(&mut self, report: DeviceReport) -> (result: Result<Resumed, AppError>)
        requires
            old(self).wf(),
            old(self)@.display is Init ==> old(self)@.context is Some,
            old(self)@.state is None,
        ensures
            final(self).wf(),
            final(self)@ == old(self)@.resume(report).app,
            result == old(self)@.resume(report).result,
    {
        let (window, _gl_config) = match self.create_window(report.window, report.context) {
            Some(made) => made,
            None => {
                return match self.exit_state {
                    Err(err) => Err(err),
                    Ok(_) => unreached(),
                };
            },
        };
        if window.size.is_empty() {
            self.exit_state = Err(AppError::Surface);
            return Err(AppError::Surface);
        }
        match report.surface {
            Err(err) => {
                self.exit_state = Err(err);
                return Err(err);
            },
            Ok(_) => {},
        }
        let create_device = self.create_renderer();
        let gl_context = self.context.unwrap();
        self.context = Some(GlContext { current: true, ..gl_context });
        self.state = Some(AppState { window, surface: window.size });
        Ok(Resumed { create_device, vsync_failed: !report.vsync })
    }

    /// Suspends the device: the device session is dropped, then the context
    /// is taken off the thread. There must be a context.
    pub fn suspend(&mut self) -> (commands: Vec<PlatformCommand>)
        requires
            old(self).wf(),
            old(self)@.context is Some,
        ensures
            final(self).wf(),
            final(self)@ == old(self)@.suspend(),
            commands@ == old(self)@.suspend_commands(),
    {
        let mut commands: Vec<PlatformCommand> = Vec::new();
        if self.state.is_some() {
            commands.push(PlatformCommand::DropSession);
        }
        self.state = None;
        let gl_context = self.context.unwrap();
        self.context = Some(GlContext { current: false, ..gl_context });
        commands.push(PlatformCommand::MakeNotCurrent);
        assert(commands@ =~= old(self)@.suspend_commands());
        commands
    }

    /// Presents the frame. Without a device session nothing happens.
    pub fn swap_buffers(&mut self) -> (commands: Vec<PlatformCommand>)
        requires
            old(self).wf(),
        ensures
            final(self).wf(),
            final(self)@ == old(self)@,
            commands@ == old(self)@.swap_commands(),
    {
        if self.state.is_some() {
            vec![PlatformCommand::RequestRedraw, PlatformCommand::SwapBuffers]
        } else {
            Vec::new()
        }
    }

    /// Gives the surface a new size. Without a device session, and for a
    /// size without an area, nothing happens.
    pub fn resize(&mut self, size: PhysicalSize) -> (commands: Vec<PlatformCommand>)
        requires
            old(self).wf(),
        ensures
            final(self).wf(),
            final(self)@ == old(self)@.resize(size),
            commands@ == old(self)@.resize_commands(size),
    {
        if self.state.is_some() && !size.is_empty() {
            self.state = Some(AppState { window: Window { size }, surface: size });
            vec![PlatformCommand::ResizeSurface { width: size.width, height: size.height }]
        } else {
            Vec::new()
        }
    }

    /// Gives up the context and what is left of the device session. There
    /// must be a context.
    pub fn exit(&mut self) -> (commands: Vec<PlatformCommand>)
        requires
            old(self).wf(),
            old(self)@.context is Some,
        ensures
            final(self).wf(),
            final(self)@ == old(self)@.exit(),
            commands@ == old(self)@.exit_commands(),
    {
        let mut commands: Vec<PlatformCommand> = vec![PlatformCommand::DropContext];
        let gl_context = self.context.unwrap();
        self.context = None;
        if self.state.is_some() {
            commands.push(PlatformCommand::DropSession);
        }
        self.state = None;
        match gl_context.backend {
            DisplayBackend::Egl => {
                commands.push(PlatformCommand::TerminateDisplay);
            },
            _ => {},
        }
        assert(commands@ =~= old(self)@.exit_commands());
        commands
    }

    pub fn has_surface_and_context(&self) -> (has: bool)
        ensures
            has == self@.has_surface_and_context(),
    {
        self.context.is_some() && self.state.is_some()
    }

    pub fn has_renderer(&self) -> (has: bool)
        ensures
            has == (self@.renderer is Some),
    {
        self.renderer.is_some()
    }

    /// The size of the surface, if there is a device session.
    pub fn surface_size(&self) -> (size: Option<PhysicalSize>)
        ensures
            size == self@.surface_size(),
    {
        match self.state {
            Some(state) => Some(state.surface),
            None => None,
        }
    }

    /// The function table, which must have been built.
    pub fn renderer(&self) -> (gl: &Gl)
        requires
            self.wf(),
            self@.renderer is Some,
        ensures
            gl.wf(),
            Some(gl@) == self@.renderer,
    {
        self.renderer.as_ref().unwrap()
    }

    /// The function table, to create resources against and to release them.
    /// It must have been built.
    pub fn renderer_mut(&mut self) -> (gl: &mut Gl)
        requires
            old(self).wf(),
            old(self)@.renderer is Some,
        ensures
            gl.wf(),
            Some(gl@) == old(self)@.renderer,
            final(self)@ == (AppView { renderer: Some(final(gl)@), ..old(self)@ }),
            final(gl).wf() ==> final(self).wf(),
    {
        self.renderer.as_mut().unwrap()
    }

    /// The number of resources that were created against the function table
    /// and not released: what must be nothing when the context is torn down.
    pub fn leaked_resources(&self) -> (leaked: usize)
        requires
            self.wf(),
        ensures
            leaked == match self@.renderer {
                Some(gl) => gl.live.len(),
                None => 0,
            },
    {
        match &self.renderer {
            Some(gl) => gl.strong_count() - 1,
            None => 0,
        }
    }
}

//////////////////////////////////////////////////
// Laws of the lifecycle

/// Whether the context `before` is still there `after`, the same but for
/// being current or not.
pub open spec fn context_kept(before: Option<GlContext>, after: Option<GlContext>) -> bool {
    before matches Some(context) ==> after == Some(
        GlContext { current: after.unwrap().current, ..context },
    )
}

/// The window of a resume is made for the configuration of the context
/// that the device has afterwards, and a context that exists is kept: so
/// every surface of a context is made with the configuration that the
/// context was made with.
pub proof fn lemma_window_config(
    app: AppView,
    window: Result<Window, AppError>,
    context: Result<GlContext, AppError>,
)
    requires
        app.wf(),
        app.display is Init ==> app.context is Some,
    ensures
        context_kept(app.context, app.create_window(window, context).app.context),
        app.create_window(window, context).made matches Some(made) ==> app.create_window(
            window,
            context,
        ).app.context matches Some(kept) && kept.config == made.1,
{
}

/// A resume that succeeds leaves the device resumed, with a surface of the
/// size of the new window. One that fails leaves the device without a
/// session and keeps the failure as the reason to exit. Either way the
/// controller stays well-formed.
pub proof fn lemma_resume(app: AppView, report: DeviceReport)
    requires
        app.wf(),
        app.state is None,
        app.display is Init ==> app.context is Some,
    ensures
        app.resume(report).app.wf(),
        context_kept(app.context, app.resume(report).app.context),
        match app.resume(report).result {
            Ok(_) => {
                &&& app.resume(report).app.lifecycle() == Lifecycle::Resumed
                &&& app.resume(report).app.has_surface_and_context()
                &&& app.resume(report).app.surface_size() == Some(report.window->Ok_0.size)
                &&& app.resume(report).app.renderer is Some
            },
            Err(error) => {
                &&& app.resume(report).app.state is None
                &&& app.resume(report).app.exit_state == Err::<(), AppError>(error)
                &&& app.resume(report).app.renderer == app.renderer
            },
        },
{
}

/// A resume succeeds exactly if the platform made the window with an
/// area, the surface with the context current on it, and, the first time,
/// the context.
pub proof fn lemma_resume_succeeds(app: AppView, report: DeviceReport)
    requires
        app.wf(),
        app.state is None,
        app.display is Init ==> app.context is Some,
    ensures
        app.resume(report).result is Ok <==> {
            &&& report.window matches Ok(window)
            &&& !window.size.is_empty()
            &&& report.surface is Ok
            &&& app.display is Build ==> report.context is Ok
        },
        app.resume(report).result matches Ok(resumed) ==> resumed.create_device == (app.renderer
            is None),
{
}

/// A suspend leaves the device suspended: the context exists and is not
/// current, and there is no device session. The function table is the one
/// it was.
pub proof fn lemma_suspend(app: AppView)
    requires
        app.wf(),
        app.context is Some,
    ensures
        app.suspend().wf(),
        app.suspend().lifecycle() == if app.renderer is Some {
            Lifecycle::Suspended
        } else {
            Lifecycle::ContextCreated
        },
        app.state is Some ==> app.suspend().lifecycle() == Lifecycle::Suspended,
        !app.suspend().has_surface_and_context(),
        app.suspend().renderer == app.renderer,
        context_kept(app.context, app.suspend().context),
{
}

/// A resize to a size with an area, while there is a device session,
/// reaches the surface, which has that size afterwards. A resize to no area
/// changes nothing and reaches nobody, and neither does any resize while
/// there is no device session.
pub proof fn lemma_resize(app: AppView, size: PhysicalSize)
    requires
        app.wf(),
    ensures
        app.resize(size).wf(),
        app.resize(size).context == app.context,
        app.resize(size).renderer == app.renderer,
        app.state is Some && !size.is_empty() ==> app.resize(size).surface_size() == Some(size),
        app.state is None || size.is_empty() ==> app.resize(size) == app && app.resize_commands(
            size,
        ) == Seq::<PlatformCommand>::empty(),
{
}

/// One resume followed, if it succeeded, by a suspend.
pub open spec fn cycle(app: AppView, report: DeviceReport) -> AppView {
    let step = app.resume(report);
    if step.result is Ok {
        step.app.suspend()
    } else {
        step.app
    }
}

/// As many resumes, each followed by a suspend, as there are reports.
pub open spec fn cycles(app: AppView, reports: Seq<DeviceReport>) -> AppView
    decreases reports.len(),
{
    if reports.len() == 0 {
        app
    } else {
        cycle(cycles(app, reports.drop_last()), reports.last())
    }
}

/// Whatever number of times the device is resumed and suspended, the
/// function table is built at most once and never touched: afterwards it is
/// the table that there was before, or, if there was none, there is none or
/// a new one that only the controller refers to. So a table that accounts
/// for the consumer's resources before, see [`crate::opengl::accounts`],
/// does so afterwards. The context is kept as well, once it exists.
pub proof fn lemma_cycles_keep_renderer(app: AppView, reports: Seq<DeviceReport>)
    requires
        app.wf(),
        app.state is None,
        app.display is Init ==> app.context is Some,
    ensures
        cycles(app, reports).wf(),
        cycles(app, reports).state is None,
        cycles(app, reports).display is Init ==> cycles(app, reports).context is Some,
        context_kept(app.context, cycles(app, reports).context),
        match app.renderer {
            Some(gl) => cycles(app, reports).renderer == Some(gl),
            None => cycles(app, reports).renderer is None || cycles(app, reports).renderer == Some(
                GlView { issued: 0, live: Set::empty() },
            ),
        },
    decreases reports.len(),
{
    if reports.len() > 0 {
        let before = cycles(app, reports.drop_last());
        lemma_cycles_keep_renderer(app, reports.drop_last());
        lemma_resume(before, reports.last());
        if before.resume(reports.last()).result is Ok {
            lemma_suspend(before.resume(reports.last()).app);
        }
    }
}

/// The exit leaves the device without context and session. It does not
/// touch the function table, which therefore still tells whether a resource
/// of the consumer is left.
pub proof fn lemma_exit(app: AppView)
    requires
        app.wf(),
        app.context is Some,
    ensures
        app.exit().wf(),
        app.exit().lifecycle() == Lifecycle::Exited,
        app.exit().renderer == app.renderer,
{
}

} // verus!
