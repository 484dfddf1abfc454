//! The application context: the state behind the lifecycle callbacks and
//! what each callback asks of the host.
//!
//! The context owns no GPU object. It records whether the host holds a
//! renderer and a UI overlay, and answers each callback with the actions
//! the host is to perform, in order.

use vstd::prelude::*;
use winit::dpi::PhysicalSize;
use crate::config::{validate_app_config, AppConfig, AppConfigView};
use crate::panel::{apply_checkboxes, applied, debug_panel, debug_panel_of, Checkbox, DebugPanel};
use crate::settings::{settings_of, MySettings, Toggle};
use crate::setup::{
    gbuffer_formats,
    gpu_requirements,
    setup_plan_of,
    shader_files,
    SetupPlan,
    SetupStep,
};
use crate::startup::StartupError;

verus! {

/// Which of the two handles the host holds.
#[derive(Clone, Copy, Debug, PartialEq, Eq, Structural)]
pub struct Handles {
    pub renderer: bool,
    pub overlay: bool,
}

/// What the host reports while it sets the renderer up.
#[derive(Clone, Copy, Debug, PartialEq, Eq, Structural)]
pub enum SetupEvent {
    /// The setup is about to begin.
    Begin,
    /// A step was performed.
    Succeeded(SetupStep),
    /// A step failed.
    Failed(SetupStep),
}

/// What the host does next during setup.
#[derive(Clone, Copy, Debug, PartialEq, Eq, Structural)]
pub enum SetupDecision {
    /// Perform this step and report how it went.
    Perform(SetupStep),
    /// Every step succeeded: keep the renderer and the overlay.
    Finished,
    /// Give up and report the failure; nothing is kept.
    Aborted,
}

/// One thing the host does during a frame.
#[derive(Clone, Copy, Debug, PartialEq, Eq, Structural)]
pub enum FrameAction {
    /// Begin a frame of the overlay and, if asked, declare the debug panel
    /// in it.
    BeginOverlayFrame { show_panel: bool },
    /// End the frame of the overlay.
    EndOverlayFrame,
    /// Advance the renderer's per-frame state and, if asked, let the
    /// overlay record its draw commands.
    UpdateRenderer { draw_overlay: bool },
    /// Submit the frame and present it.
    RenderFrame,
}

/// One thing the host does at teardown.
#[derive(Clone, Copy, Debug, PartialEq, Eq, Structural)]
pub enum TeardownAction {
    /// Block until the GPU has finished all work.
    WaitIdle,
    /// Release the overlay.
    ReleaseOverlay,
    /// Release the renderer.
    ReleaseRenderer,
}

/// The application context.
pub struct MyApplicationContext {
    log_file: String,
    config: AppConfig,
    settings: MySettings,
    handles: Handles,
}

/// The mathematical value of a [`MyApplicationContext`].
pub struct ContextView {
    pub log_file: Seq<char>,
    pub config: AppConfigView,
    pub settings: MySettings,
    pub handles: Handles,
}

/// The decision that answers a setup event: begin with the first step,
/// go on to the successor of a step that succeeded, finish after the last,
/// and abort on a failure.
pub open spec fn decision_of(event: SetupEvent) -> SetupDecision {
    match event {
        SetupEvent::Begin => SetupDecision::Perform(crate::setup::setup_sequence()[0]),
        SetupEvent::Succeeded(step) => match step.successor() {
            Some(next) => SetupDecision::Perform(next),
            None => SetupDecision::Finished,
        },
        SetupEvent::Failed(_) => SetupDecision::Aborted,
    }
}

impl ContextView {
    /// A context is well formed when its configuration is valid and the
    /// host holds either both handles or neither.
    pub open spec fn wf(self) -> bool {
        &&& self.config.is_valid()
        &&& self.handles.renderer == self.handles.overlay
    }

    /// The context after a setup event. Only the success of the last step
    /// changes it: from then on the host holds both handles.
    pub open spec fn after_setup_event(self, event: SetupEvent) -> ContextView {
        if decision_of(event) == SetupDecision::Finished {
            ContextView { handles: Handles { renderer: true, overlay: true }, ..self }
        } else {
            self
        }
    }

    /// The actions of one update. With an overlay, its frame is begun and
    /// ended, and the panel is declared if there is a renderer. With a
    /// renderer, its state is advanced after that, and the overlay draws if
    /// there is one.
    pub open spec fn update_actions(self) -> Seq<FrameAction> {
        let overlay_part = if self.handles.overlay {
            seq![
                FrameAction::BeginOverlayFrame { show_panel: self.handles.renderer },
                FrameAction::EndOverlayFrame,
            ]
        } else {
            Seq::<FrameAction>::empty()
        };
        let renderer_part = if self.handles.renderer {
            seq![FrameAction::UpdateRenderer { draw_overlay: self.handles.overlay }]
        } else {
            Seq::<FrameAction>::empty()
        };
        overlay_part + renderer_part
    }

    /// The actions of one render: the frame is submitted once if there is a
    /// renderer.
    pub open spec fn render_actions(self) -> Seq<FrameAction> {
        if self.handles.renderer {
            seq![FrameAction::RenderFrame]
        } else {
            Seq::<FrameAction>::empty()
        }
    }

    /// The actions of a teardown. With a renderer: wait for the GPU, then
    /// release the overlay, then the renderer. Without one: nothing.
    pub open spec fn teardown_actions(self) -> Seq<TeardownAction> {
        if self.handles.renderer {
            seq![
                TeardownAction::WaitIdle,
                TeardownAction::ReleaseOverlay,
                TeardownAction::ReleaseRenderer,
            ]
        } else {
            Seq::<TeardownAction>::empty()
        }
    }

    /// The context after a teardown. With a renderer, both handles are
    /// gone; without one, nothing changes.
    pub open spec fn after_teardown(self) -> ContextView {
        if self.handles.renderer {
            ContextView { handles: Handles { renderer: false, overlay: false }, ..self }
        } else {
            self
        }
    }

    /// The window size that the configuration asks for.
    pub open spec fn window_size(self) -> PhysicalSize<u32> {
        PhysicalSize {
            width: self.config.window.width as u32,
            height: self.config.window.height as u32,
        }
    }
}

impl View for MyApplicationContext {
    type V = ContextView;

    closed spec fn view(&self) -> ContextView {
        ContextView {
            log_file: self.log_file@,
            config: self.config@,
            settings: self.settings,
            handles: self.handles,
        }
    }
}

impl MyApplicationContext {
    #[verifier::type_invariant]
    spec fn inv(self) -> bool {
        self@.wf()
    }

    /// Creates the context for a log file and a configuration. It exists
    /// only for a valid configuration: an invalid one is turned down with
    /// the error of its validation. A new context mirrors the toggles of
    /// its configuration in its settings, and the host holds no handle.
    pub fn new(log_file: String, config: AppConfig) -> (result: Result<Self, StartupError>)
        ensures
            match config@.validation() {
                Ok(_) => result is Ok && result->Ok_0@ == (ContextView {
                    log_file: log_file@,
                    config: config@,
                    settings: settings_of(config@),
                    handles: Handles { renderer: false, overlay: false },
                }),
                Err(e) => result is Err && result->Err_0 == StartupError::InvalidConfig(e),
            },
            result is Ok <==> config@.is_valid(),
            result is Ok ==> result->Ok_0@.wf(),
    {
        match validate_app_config(&config) {
            Err(e) => Err(StartupError::InvalidConfig(e)),
            Ok(_) => {
                let settings = MySettings::from_config(&config);
                Ok(
                    MyApplicationContext {
                        log_file,
                        config,
                        settings,
                        handles: Handles { renderer: false, overlay: false },
                    },
                )
            },
        }
    }

    /// The pattern of a line on the console.
    pub fn get_log_console_fmt(&self) -> (pattern: &'static str)
        ensures
            pattern@ == "{d(%H:%M:%S)} {h({l:<5})} {t:<20.20} - {m}{n}"@,
    {
        "{d(%H:%M:%S)} {h({l:<5})} {t:<20.20} - {m}{n}"
    }

    /// The pattern of a line in the log file.
    pub fn get_log_file_fmt(&self) -> (pattern: &'static str)
        ensures
            pattern@ == "{d(%Y-%m-%d %H:%M:%S)} {h({l:<5})} {f}:{L} - {m}{n}"@,
    {
        "{d(%Y-%m-%d %H:%M:%S)} {h({l:<5})} {f}:{L} - {m}{n}"
    }

    /// The path of the log file.
    pub fn get_log_file(&self) -> (path: &str)
        ensures
            path@ == self@.log_file,
    {
        self.log_file.as_str()
    }

    /// The size at which the log file is rotated: one mebibyte.
    pub fn get_log_file_size(&self) -> (bytes: u64)
        ensures
            bytes == 1024 * 1024,
    {
        1024 * 1024
    }

    /// The number of rotated log files that are kept.
    pub fn get_log_file_roller_count(&self) -> (count: u32)
        ensures
            count == 5,
    {
        5
    }

    /// The title of the window.
    pub fn get_window_title(&self) -> (title: &'static str)
        ensures
            title@ == "Derfered Renderer"@,
    {
        "Derfered Renderer"
    }

    /// The size of the window: the configured width and height, which are
    /// positive.
    pub fn get_window_size(&self) -> (size: PhysicalSize<u32>)
        ensures
            size == self@.window_size(),
            size.width == self@.config.window.width,
            size.height == self@.config.window.height,
            size.width > 0 && size.height > 0,
    {
        proof {
            use_type_invariant(self);
        }
        PhysicalSize::new(self.config.window.width as u32, self.config.window.height as u32)
    }

    /// The configuration the context was created with.
    pub fn config(&self) -> (config: &AppConfig)
        ensures
            config@ == self@.config,
            config@.is_valid(),
    {
        proof {
            use_type_invariant(self);
        }
        &self.config
    }

    /// The current settings.
    pub fn settings(&self) -> (settings: MySettings)
        ensures
            settings == self@.settings,
    {
        self.settings
    }

    /// Whether the host holds a UI overlay.
    pub fn has_imgui(&self) -> (present: bool)
        ensures
            present == self@.handles.overlay,
    {
        self.handles.overlay
    }

    /// Whether the host holds a renderer. It holds one exactly when it
    /// holds an overlay.
    pub fn has_renderer(&self) -> (present: bool)
        ensures
            present == self@.handles.renderer,
            present == self@.handles.overlay,
    {
        proof {
            use_type_invariant(self);
        }
        self.handles.renderer
    }

    /// The values the setup steps are performed with, for a debug or a
    /// release build. The context is not changed.
    pub fn before_run(&self, debug_build: bool) -> (plan: SetupPlan)
        ensures
            plan@ == setup_plan_of(self@.config, self@.settings, debug_build),
            plan.gpu.width == self@.config.window.width,
            plan.gpu.height == self@.config.window.height,
    {
        proof {
            use_type_invariant(self);
        }
        let size = self.get_window_size();
        SetupPlan {
            scene_file: self.config.scene_file.clone(),
            gpu: gpu_requirements(size.width, size.height, debug_build),
            use_transient: self.settings.use_transient,
            formats: gbuffer_formats(self.settings.use_small_gbuffer),
            shaders: shader_files(debug_build),
        }
    }

    /// Answers a report of the host during setup with what it does next.
    /// The context changes only when the last step has succeeded: the host
    /// then holds the renderer and the overlay. A failure leaves it as it
    /// was.
    pub fn on_setup_event(&mut self, event: SetupEvent) -> (decision: SetupDecision)
        ensures
            decision == decision_of(event),
            final(self)@ == old(self)@.after_setup_event(event),
            final(self)@.wf(),
    {
        proof {
            use_type_invariant(&*self);
        }
        match event {
            SetupEvent::Begin => SetupDecision::Perform(SetupStep::first()),
            SetupEvent::Succeeded(step) => match step.next() {
                Some(next) => SetupDecision::Perform(next),
                None => {
                    self.handles = Handles { renderer: true, overlay: true };
                    SetupDecision::Finished
                },
            },
            SetupEvent::Failed(_) => SetupDecision::Aborted,
        }
    }

    /// The teardown. If the host holds a renderer it waits for the GPU and
    /// releases the overlay, then the renderer; afterwards it holds
    /// neither. If it holds none, nothing is asked and nothing changes.
    pub fn after_run(&mut self) -> (actions: Vec<TeardownAction>)
        ensures
            actions@ == old(self)@.teardown_actions(),
            final(self)@ == old(self)@.after_teardown(),
            final(self)@.wf(),
            !final(self)@.handles.renderer && !final(self)@.handles.overlay,
    {
        proof {
            use_type_invariant(&*self);
        }
        let mut actions: Vec<TeardownAction> = Vec::new();
        if self.handles.renderer {
            self.handles = Handles { renderer: false, overlay: false };
            actions.push(TeardownAction::WaitIdle);
            actions.push(TeardownAction::ReleaseOverlay);
            actions.push(TeardownAction::ReleaseRenderer);
        }
        assert(actions@ =~= old(self)@.teardown_actions());
        actions
    }

    /// The actions of one update, in order. The context is not changed.
    pub fn update(&self) -> (actions: Vec<FrameAction>)
        ensures
            actions@ == self@.update_actions(),
    {
        let mut actions: Vec<FrameAction> = Vec::new();
        if self.handles.overlay {
            actions.push(FrameAction::BeginOverlayFrame { show_panel: self.handles.renderer });
            actions.push(FrameAction::EndOverlayFrame);
        }
        if self.handles.renderer {
            actions.push(FrameAction::UpdateRenderer { draw_overlay: self.handles.overlay });
        }
        assert(actions@ =~= self@.update_actions());
        actions
    }

    /// The actions of one render. The context is not changed.
    pub fn render(&self) -> (actions: Vec<FrameAction>)
        ensures
            actions@ == self@.render_actions(),
    {
        let mut actions: Vec<FrameAction> = Vec::new();
        if self.handles.renderer {
            actions.push(FrameAction::RenderFrame);
        }
        assert(actions@ =~= self@.render_actions());
        actions
    }

    /// Describes the debug panel for the current settings.
    pub fn debug_panel(&self) -> (panel: DebugPanel)
        ensures
            panel@ == debug_panel_of(self@.settings),
    {
        debug_panel(&self.settings)
    }

    /// Writes the states of the panel's checkboxes to the settings, in
    /// order. Nothing else changes.
    pub fn apply_panel(&mut self, boxes: &Vec<Checkbox>)
        ensures
            final(self)@ == (ContextView {
                settings: applied(old(self)@.settings, boxes@, boxes@.len()),
                ..old(self)@
            }),
            final(self)@.wf(),
    {
        proof {
            use_type_invariant(&*self);
        }
        let mut settings = self.settings;
        apply_checkboxes(&mut settings, boxes);
        self.settings = settings;
    }

    /// Sets one toggle of the settings. Nothing else changes.
    pub fn set_toggle(&mut self, toggle: Toggle, value: bool)
        ensures
            final(self)@ == (ContextView {
                settings: old(self)@.settings.with(toggle, value),
                ..old(self)@
            }),
            final(self)@.wf(),
    {
        proof {
            use_type_invariant(&*self);
        }
        let mut settings = self.settings;
        settings.set(toggle, value);
        self.settings = settings;
    }
}

/// A teardown without a renderer asks nothing and changes nothing. So a
/// teardown that follows a failed setup releases nothing, and so does a
/// second teardown after a first.
pub proof fn lemma_teardown_without_renderer(context: ContextView, failed: SetupStep)
    requires
        context.wf(),
    ensures
        !context.handles.renderer ==> {
            let later = context.after_setup_event(SetupEvent::Failed(failed));
            &&& later == context
            &&& later.teardown_actions() == Seq::<TeardownAction>::empty()
            &&& later.after_teardown() == later
        },
        context.after_teardown().teardown_actions() == Seq::<TeardownAction>::empty(),
        context.after_teardown().after_teardown() == context.after_teardown(),
{
}

/// Every transition keeps a context well formed: the host holds both
/// handles or neither, before and after every callback.
pub proof fn lemma_transitions_keep_wf(
    context: ContextView,
    event: SetupEvent,
    toggle: Toggle,
    value: bool,
)
    requires
        context.wf(),
    ensures
        context.after_setup_event(event).wf(),
        context.after_teardown().wf(),
        (ContextView { settings: context.settings.with(toggle, value), ..context }).wf(),
{
}

/// In a well-formed context a frame is all or nothing: with the handles,
/// the overlay's frame with its panel, then the renderer's update with the
/// overlay's drawing, and one submission; without them, no action at all.
pub proof fn lemma_frame_actions(context: ContextView)
    requires
        context.wf(),
    ensures
        context.handles.renderer ==> context.update_actions() == seq![
            FrameAction::BeginOverlayFrame { show_panel: true },
            FrameAction::EndOverlayFrame,
            FrameAction::UpdateRenderer { draw_overlay: true },
        ] && context.render_actions() == seq![FrameAction::RenderFrame],
        !context.handles.renderer ==> context.update_actions() == Seq::<FrameAction>::empty()
            && context.render_actions() == Seq::<FrameAction>::empty(),
{
    assert(context.handles.renderer ==> context.update_actions() =~= seq![
        FrameAction::BeginOverlayFrame { show_panel: true },
        FrameAction::EndOverlayFrame,
        FrameAction::UpdateRenderer { draw_overlay: true },
    ]);
    assert(!context.handles.renderer ==> context.update_actions() =~= Seq::<FrameAction>::empty());
}

} // verus!
