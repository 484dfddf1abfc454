//! The parameters the renderer is created with, and the order of the steps
//! that create it.
//!
//! Nothing here touches the GPU. The host performs each step with the
//! values of the plan and reports how it went.

use vstd::prelude::*;
use vstd::string::StringExecFns;
use crate::config::AppConfigView;
use crate::settings::MySettings;

verus! {

/// A pixel format of a G-buffer image.
#[derive(Clone, Copy, Debug, PartialEq, Eq, Structural)]
pub enum GBufferFormat {
    /// Four channels of 8 bits, unsigned normalised.
    R8G8B8A8Unorm,
    /// Three channels of 10 bits and 2 bits of alpha, packed in 32 bits.
    A2R10G10B10UnormPack32,
    /// Four channels of 32-bit floating point.
    R32G32B32A32Sfloat,
}

/// The formats of the two G-buffer images.
#[derive(Clone, Copy, Debug, PartialEq, Eq, Structural)]
pub struct GBufferFormats {
    /// The format of the colour image.
    pub color: GBufferFormat,
    /// The format of the image that holds depth and normal.
    pub normal: GBufferFormat,
}

/// A version of the graphics API.
#[derive(Clone, Copy, Debug, PartialEq, Eq, Structural)]
pub struct ApiVersion {
    pub major: u32,
    pub minor: u32,
    pub patch: u32,
}

/// What the application asks of the GPU and its driver.
#[derive(Clone, Copy, Debug, PartialEq, Eq, Structural)]
pub struct GpuRequirements {
    pub width: u32,
    pub height: u32,
    pub version: ApiVersion,
    pub require_srgb_surface: bool,
    pub require_mesh_shader: bool,
    pub require_ray_tracing: bool,
    pub require_10bits_output: bool,
    pub is_low_latency: bool,
    pub require_depth: bool,
    pub require_printf_in_shader: bool,
}

/// The compiled shaders that the two passes load.
#[derive(Clone, Debug, PartialEq, Eq)]
pub struct ShaderFiles {
    pub lighting_vertex: String,
    pub lighting_pixel: String,
    pub geometry_task: Option<String>,
    pub geometry_mesh: String,
    pub geometry_pixel: String,
}

/// The mathematical value of [`ShaderFiles`].
pub struct ShaderFilesView {
    pub lighting_vertex: Seq<char>,
    pub lighting_pixel: Seq<char>,
    pub geometry_task: Option<Seq<char>>,
    pub geometry_mesh: Seq<char>,
    pub geometry_pixel: Seq<char>,
}

/// Every value that the setup steps are performed with.
#[derive(Clone, Debug, PartialEq, Eq)]
pub struct SetupPlan {
    pub scene_file: String,
    pub gpu: GpuRequirements,
    pub use_transient: bool,
    pub formats: GBufferFormats,
    pub shaders: ShaderFiles,
}

/// The mathematical value of a [`SetupPlan`].
pub struct SetupPlanView {
    pub scene_file: Seq<char>,
    pub gpu: GpuRequirements,
    pub use_transient: bool,
    pub formats: GBufferFormats,
    pub shaders: ShaderFilesView,
}

/// One step of the renderer's setup.
#[derive(Clone, Copy, Debug, PartialEq, Eq, Structural)]
pub enum SetupStep {
    LoadScene,
    CreateRenderer,
    CreateGBufferImages,
    CreateDeferredRenderPass,
    CreateDeferredFramebuffers,
    PushShaders,
    BindScene,
    Commit,
    CreateOverlay,
}

impl View for ShaderFiles {
    type V = ShaderFilesView;

    open spec fn view(&self) -> ShaderFilesView {
        ShaderFilesView {
            lighting_vertex: self.lighting_vertex@,
            lighting_pixel: self.lighting_pixel@,
            geometry_task: match self.geometry_task {
                Some(path) => Some(path@),
                None => None,
            },
            geometry_mesh: self.geometry_mesh@,
            geometry_pixel: self.geometry_pixel@,
        }
    }
}

impl View for SetupPlan {
    type V = SetupPlanView;

    open spec fn view(&self) -> SetupPlanView {
        SetupPlanView {
            scene_file: self.scene_file@,
            gpu: self.gpu,
            use_transient: self.use_transient,
            formats: self.formats,
            shaders: self.shaders@,
        }
    }
}

/// The formats for a small or a full G-buffer. The small one stores colour
/// in 8 bits a channel and packs depth and normal in 10 bits a channel; the
/// full one stores both in 32-bit floating point.
pub open spec fn gbuffer_formats_of(use_small_gbuffer: bool) -> GBufferFormats {
    if use_small_gbuffer {
        GBufferFormats {
            color: GBufferFormat::R8G8B8A8Unorm,
            normal: GBufferFormat::A2R10G10B10UnormPack32,
        }
    } else {
        GBufferFormats {
            color: GBufferFormat::R32G32B32A32Sfloat,
            normal: GBufferFormat::R32G32B32A32Sfloat,
        }
    }
}

/// The requirements for a window of the given size. Everything but the
/// size and the shader debug output is fixed: API version 1.3.0, an sRGB
/// surface, mesh shaders, a depth buffer and low latency are asked for; ray
/// tracing and 10-bit output are not. Shaders may print only in a debug
/// build.
pub open spec fn gpu_requirements_of(width: int, height: int, debug_build: bool) -> GpuRequirements {
    GpuRequirements {
        width: width as u32,
        height: height as u32,
        version: ApiVersion { major: 1, minor: 3, patch: 0 },
        require_srgb_surface: true,
        require_mesh_shader: true,
        require_ray_tracing: false,
        require_10bits_output: false,
        is_low_latency: true,
        require_depth: true,
        require_printf_in_shader: debug_build,
    }
}

/// The directory that holds the compiled shaders of a build kind.
pub open spec fn shaders_dir_text(debug_build: bool) -> Seq<char> {
    if debug_build {
        "shaders/output/debug/hala-subpasses/HALA_SUBPASSES"@
    } else {
        "shaders/output/release/hala-subpasses/HALA_SUBPASSES"@
    }
}

/// The path of a file in a directory: the two joined by one slash.
pub open spec fn path_in(dir: Seq<char>, file: Seq<char>) -> Seq<char> {
    dir + "/"@ + file
}

/// The shader files of a build kind, all in that build's directory.
pub open spec fn shader_files_of(debug_build: bool) -> ShaderFilesView {
    let dir = shaders_dir_text(debug_build);
    ShaderFilesView {
        lighting_vertex: path_in(dir, "lighting.vs_6_8.spv"@),
        lighting_pixel: path_in(dir, "lighting.ps_6_8.spv"@),
        geometry_task: Some(path_in(dir, "geometry.as_6_8.spv"@)),
        geometry_mesh: path_in(dir, "geometry.ms_6_8.spv"@),
        geometry_pixel: path_in(dir, "geometry.ps_6_8.spv"@),
    }
}

/// The plan for a valid configuration and the current settings. The window
/// size and the scene come from the configuration, the transient flag and
/// the G-buffer formats from the settings.
pub open spec fn setup_plan_of(
    config: AppConfigView,
    settings: MySettings,
    debug_build: bool,
) -> SetupPlanView {
    SetupPlanView {
        scene_file: config.scene_file,
        gpu: gpu_requirements_of(config.window.width as int, config.window.height as int, debug_build),
        use_transient: settings.use_transient,
        formats: gbuffer_formats_of(settings.use_small_gbuffer),
        shaders: shader_files_of(debug_build),
    }
}

/// The steps of the setup, in the order in which they are performed.
pub open spec fn setup_sequence() -> Seq<SetupStep> {
    seq![
        SetupStep::LoadScene,
        SetupStep::CreateRenderer,
        SetupStep::CreateGBufferImages,
        SetupStep::CreateDeferredRenderPass,
        SetupStep::CreateDeferredFramebuffers,
        SetupStep::PushShaders,
        SetupStep::BindScene,
        SetupStep::Commit,
        SetupStep::CreateOverlay,
    ]
}

impl SetupStep {
    /// The place of this step in the sequence, counted from zero.
    pub open spec fn index(self) -> int {
        match self {
            SetupStep::LoadScene => 0,
            SetupStep::CreateRenderer => 1,
            SetupStep::CreateGBufferImages => 2,
            SetupStep::CreateDeferredRenderPass => 3,
            SetupStep::CreateDeferredFramebuffers => 4,
            SetupStep::PushShaders => 5,
            SetupStep::BindScene => 6,
            SetupStep::Commit => 7,
            SetupStep::CreateOverlay => 8,
        }
    }

    /// The step that follows this one, if any.
    pub open spec fn successor(self) -> Option<SetupStep> {
        if self.index() + 1 < setup_sequence().len() {
            Some(setup_sequence()[self.index() + 1])
        } else {
            None
        }
    }

    /// The step with which the setup begins.
    pub fn first() -> (step: SetupStep)
        ensures
            step == setup_sequence()[0],
    {
        SetupStep::LoadScene
    }

    /// The step to perform once this one has succeeded; `None` after the
    /// last.
    pub fn next(self) -> (step: Option<SetupStep>)
        ensures
            step == self.successor(),
    {
        match self {
            SetupStep::LoadScene => Some(SetupStep::CreateRenderer),
            SetupStep::CreateRenderer => Some(SetupStep::CreateGBufferImages),
            SetupStep::CreateGBufferImages => Some(SetupStep::CreateDeferredRenderPass),
            SetupStep::CreateDeferredRenderPass => Some(SetupStep::CreateDeferredFramebuffers),
            SetupStep::CreateDeferredFramebuffers => Some(SetupStep::PushShaders),
            SetupStep::PushShaders => Some(SetupStep::BindScene),
            SetupStep::BindScene => Some(SetupStep::Commit),
            SetupStep::Commit => Some(SetupStep::CreateOverlay),
            SetupStep::CreateOverlay => None,
        }
    }
}

/// The name the renderer is created under.
pub fn renderer_name() -> (name: &'static str)
    ensures
        name@ == "Deferred Renderer"@,
{
    "Deferred Renderer"
}

/// The name of the pass that the geometry shaders are registered for.
pub fn geometry_pass_name() -> (name: &'static str)
    ensures
        name@ == "geometry_pass"@,
{
    "geometry_pass"
}

/// Picks the G-buffer formats for the small or the full G-buffer.
pub fn gbuffer_formats(use_small_gbuffer: bool) -> (formats: GBufferFormats)
    ensures
        formats == gbuffer_formats_of(use_small_gbuffer),
{
    if use_small_gbuffer {
        GBufferFormats {
            color: GBufferFormat::R8G8B8A8Unorm,
            normal: GBufferFormat::A2R10G10B10UnormPack32,
        }
    } else {
        GBufferFormats {
            color: GBufferFormat::R32G32B32A32Sfloat,
            normal: GBufferFormat::R32G32B32A32Sfloat,
        }
    }
}

/// The GPU requirements for a window of the given size.
pub fn gpu_requirements(width: u32, height: u32, debug_build: bool) -> (req: GpuRequirements)
    ensures
        req == gpu_requirements_of(width as int, height as int, debug_build),
{
    GpuRequirements {
        width,
        height,
        version: ApiVersion { major: 1, minor: 3, patch: 0 },
        require_srgb_surface: true,
        require_mesh_shader: true,
        require_ray_tracing: false,
        require_10bits_output: false,
        is_low_latency: true,
        require_depth: true,
        require_printf_in_shader: debug_build,
    }
}

/// The directory of the compiled shaders for a debug or a release build.
pub fn shaders_dir(debug_build: bool) -> (dir: &'static str)
    ensures
        dir@ == shaders_dir_text(debug_build),
{
    if debug_build {
        "shaders/output/debug/hala-subpasses/HALA_SUBPASSES"
    } else {
        "shaders/output/release/hala-subpasses/HALA_SUBPASSES"
    }
}

/// Joins a directory and a file name with a slash.
pub fn shader_path(dir: &str, file: &str) -> (path: String)
    ensures
        path@ == path_in(dir@, file@),
{
    let mut path = String::from_str(dir);
    path.append("/");
    path.append(file);
    path
}

/// The shader files of a debug or a release build.
pub fn shader_files(debug_build: bool) -> (files: ShaderFiles)
    ensures
        files@ == shader_files_of(debug_build),
{
    let dir = shaders_dir(debug_build);
    ShaderFiles {
        lighting_vertex: shader_path(dir, "lighting.vs_6_8.spv"),
        lighting_pixel: shader_path(dir, "lighting.ps_6_8.spv"),
        geometry_task: Some(shader_path(dir, "geometry.as_6_8.spv")),
        geometry_mesh: shader_path(dir, "geometry.ms_6_8.spv"),
        geometry_pixel: shader_path(dir, "geometry.ps_6_8.spv"),
    }
}

/// Every step has its place in the sequence, the sequence holds nothing
/// else, and following the successors from the first step walks it in
/// order.
pub proof fn lemma_setup_sequence(step: SetupStep)
    ensures
        0 <= step.index() < setup_sequence().len(),
        setup_sequence()[step.index()] == step,
        setup_sequence().len() == 9,
        step.successor() is None <==> step == SetupStep::CreateOverlay,
        step.successor() is Some ==> step.successor()->Some_0.index() == step.index() + 1,
{
}

} // verus!
