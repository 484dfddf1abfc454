use hala_subpasses::settings::{MySettings, Toggle};
use hala_subpasses::setup::{
    gbuffer_formats, geometry_pass_name, gpu_requirements, renderer_name, shader_files,
    shader_path, shaders_dir, ApiVersion, GBufferFormat, GBufferFormats, GpuRequirements,
    SetupStep, ShaderFiles,
};

#[test]
fn small_gbuffer_uses_packed_formats() {
    assert_eq!(
        gbuffer_formats(true),
        GBufferFormats {
            color: GBufferFormat::R8G8B8A8Unorm,
            normal: GBufferFormat::A2R10G10B10UnormPack32,
        }
    );
}

#[test]
fn full_gbuffer_uses_float_formats() {
    assert_eq!(
        gbuffer_formats(false),
        GBufferFormats {
            color: GBufferFormat::R32G32B32A32Sfloat,
            normal: GBufferFormat::R32G32B32A32Sfloat,
        }
    );
}

#[test]
fn gpu_requirements_are_fixed_but_for_size_and_debug_output() {
    assert_eq!(
        gpu_requirements(1280, 720, false),
        GpuRequirements {
            width: 1280,
            height: 720,
            version: ApiVersion { major: 1, minor: 3, patch: 0 },
            require_srgb_surface: true,
            require_mesh_shader: true,
            require_ray_tracing: false,
            require_10bits_output: false,
            is_low_latency: true,
            require_depth: true,
            require_printf_in_shader: false,
        }
    );
    let debug = gpu_requirements(1, u32::MAX, true);
    assert!(debug.require_printf_in_shader);
    assert_eq!(debug.width, 1);
    assert_eq!(debug.height, u32::MAX);
}

#[test]
fn shaders_dir_depends_on_the_build() {
    assert_eq!(shaders_dir(true), "shaders/output/debug/hala-subpasses/HALA_SUBPASSES");
    assert_eq!(shaders_dir(false), "shaders/output/release/hala-subpasses/HALA_SUBPASSES");
}

#[test]
fn shader_path_joins_with_one_slash() {
    assert_eq!(shader_path("a/b", "c.spv"), "a/b/c.spv");
    assert_eq!(shader_path("", "c.spv"), "/c.spv");
    assert_eq!(shader_path("dir", ""), "dir/");
}

#[test]
fn release_shader_files() {
    let dir = "shaders/output/release/hala-subpasses/HALA_SUBPASSES";
    assert_eq!(
        shader_files(false),
        ShaderFiles {
            lighting_vertex: format!("{}/lighting.vs_6_8.spv", dir),
            lighting_pixel: format!("{}/lighting.ps_6_8.spv", dir),
            geometry_task: Some(format!("{}/geometry.as_6_8.spv", dir)),
            geometry_mesh: format!("{}/geometry.ms_6_8.spv", dir),
            geometry_pixel: format!("{}/geometry.ps_6_8.spv", dir),
        }
    );
}

#[test]
fn debug_shader_files() {
    let files = shader_files(true);
    assert_eq!(
        files.lighting_vertex,
        "shaders/output/debug/hala-subpasses/HALA_SUBPASSES/lighting.vs_6_8.spv"
    );
    assert_eq!(
        files.geometry_task,
        Some("shaders/output/debug/hala-subpasses/HALA_SUBPASSES/geometry.as_6_8.spv".to_string())
    );
}

#[test]
fn fixed_names() {
    assert_eq!(renderer_name(), "Deferred Renderer");
    assert_eq!(geometry_pass_name(), "geometry_pass");
}

#[test]
fn setup_steps_come_in_order() {
    let mut walked = vec![SetupStep::first()];
    let mut step = SetupStep::first();
    while let Some(next) = step.next() {
        walked.push(next);
        step = next;
    }
    assert_eq!(
        walked,
        vec![
            SetupStep::LoadScene,
            SetupStep::CreateRenderer,
            SetupStep::CreateGBufferImages,
            SetupStep::CreateDeferredRenderPass,
            SetupStep::CreateDeferredFramebuffers,
            SetupStep::PushShaders,
            SetupStep::BindScene,
            SetupStep::Commit,
            SetupStep::CreateOverlay,
        ]
    );
    assert_eq!(SetupStep::CreateOverlay.next(), None);
}

#[test]
fn toggle_labels() {
    assert_eq!(Toggle::UseSubpasses.label(), "Use Subpasses");
    assert_eq!(Toggle::UseTransient.label(), "Use Transient");
    assert_eq!(Toggle::UseSmallGBuffer.label(), "Use Small(128-bits) G-Buffer");
}

#[test]
fn settings_set_and_get() {
    let mut s = MySettings { use_subpasses: false, use_transient: false, use_small_gbuffer: false };
    s.set(Toggle::UseTransient, true);
    assert_eq!(
        s,
        MySettings { use_subpasses: false, use_transient: true, use_small_gbuffer: false }
    );
    assert!(s.get(Toggle::UseTransient));
    assert!(!s.get(Toggle::UseSubpasses));
    assert!(!s.get(Toggle::UseSmallGBuffer));
    s.set(Toggle::UseSmallGBuffer, true);
    s.set(Toggle::UseTransient, false);
    s.set(Toggle::UseSubpasses, true);
    assert_eq!(
        s,
        MySettings { use_subpasses: true, use_transient: false, use_small_gbuffer: true }
    );
}
