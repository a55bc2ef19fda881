//! Settings that are handed on to the shader translator.
//!
//! The translator interprets them; here they are only recorded, in the
//! order in which they were made.

use vstd::prelude::*;

verus! {

/// Target environment.
#[derive(Clone, Copy, Debug, PartialEq, Eq, Structural)]
pub enum TargetEnv {
    Vulkan,
    OpenGL,
    OpenGLCompat,
}

/// Version of the binary format to produce.
#[derive(Clone, Copy, Debug, PartialEq, Eq, Structural)]
pub enum SpirvVersion {
    V1_0,
    V1_1,
    V1_2,
    V1_3,
    V1_4,
    V1_5,
    V1_6,
}

/// Language that the source is written in.
#[derive(Clone, Copy, Debug, PartialEq, Eq, Structural)]
pub enum SourceLanguage {
    GLSL,
    HLSL,
}

/// Kind of resource that a binding base applies to.
#[derive(Clone, Copy, Debug, PartialEq, Eq, Structural)]
pub enum ResourceKind {
    Image,
    Sampler,
    Texture,
    Buffer,
    StorageBuffer,
    UnorderedAccessView,
}

/// Pipeline stage that a source is compiled for.
#[derive(Clone, Copy, Debug, PartialEq, Eq, Structural)]
pub enum ShaderKind {
    Vertex,
    Fragment,
    Compute,
    Geometry,
    TessControl,
    TessEvaluation,
    InferFromSource,
    DefaultVertex,
    DefaultFragment,
    DefaultCompute,
    DefaultGeometry,
    DefaultTessControl,
    DefaultTessEvaluation,
    SpirvAssembly,
    RayGeneration,
    AnyHit,
    ClosestHit,
    Miss,
    Intersection,
    Callable,
    DefaultRayGeneration,
    DefaultAnyHit,
    DefaultClosestHit,
    DefaultMiss,
    DefaultIntersection,
    DefaultCallable,
    Task,
    Mesh,
    DefaultTask,
    DefaultMesh,
}

/// Profile of a forced language version.
#[derive(Clone, Copy, Debug, PartialEq, Eq, Structural)]
pub enum GlslProfile {
    /// For language versions that define no profiles.
    NoProfile,
    Core,
    Compatibility,
    Es,
}

/// How far the translator optimizes.
#[derive(Clone, Copy, Debug, PartialEq, Eq, Structural)]
pub enum OptimizationLevel {
    Zero,
    Size,
    Performance,
}

/// Resource limit of the target.
#[derive(Clone, Copy, Debug, PartialEq, Eq, Structural)]
pub enum Limit {
    MaxLights,
    MaxClipPlanes,
    MaxTextureUnits,
    MaxTextureCoords,
    MaxVertexAttribs,
    MaxVertexUniformComponents,
    MaxVaryingFloats,
    MaxVertexTextureImageUnits,
    MaxCombinedTextureImageUnits,
    MaxTextureImageUnits,
    MaxFragmentUniformComponents,
    MaxDrawBuffers,
    MaxVertexUniformVectors,
    MaxVaryingVectors,
    MaxFragmentUniformVectors,
    MaxVertexOutputVectors,
    MaxFragmentInputVectors,
    MinProgramTexelOffset,
    MaxProgramTexelOffset,
    MaxClipDistances,
    MaxComputeWorkGroupCountX,
    MaxComputeWorkGroupCountY,
    MaxComputeWorkGroupCountZ,
    MaxComputeWorkGroupSizeX,
    MaxComputeWorkGroupSizeY,
    MaxComputeWorkGroupSizeZ,
    MaxComputeUniformComponents,
    MaxComputeTextureImageUnits,
    MaxComputeImageUniforms,
    MaxComputeAtomicCounters,
    MaxComputeAtomicCounterBuffers,
    MaxVaryingComponents,
    MaxVertexOutputComponents,
    MaxGeometryInputComponents,
    MaxGeometryOutputComponents,
    MaxFragmentInputComponents,
    MaxImageUnits,
    MaxCombinedImageUnitsAndFragmentOutputs,
    MaxCombinedShaderOutputResources,
    MaxImageSamples,
    MaxVertexImageUniforms,
    MaxTessControlImageUniforms,
    MaxTessEvaluationImageUniforms,
    MaxGeometryImageUniforms,
    MaxFragmentImageUniforms,
    MaxCombinedImageUniforms,
    MaxGeometryTextureImageUnits,
    MaxGeometryOutputVertices,
    MaxGeometryTotalOutputComponents,
    MaxGeometryUniformComponents,
    MaxGeometryVaryingComponents,
    MaxTessControlInputComponents,
    MaxTessControlOutputComponents,
    MaxTessControlTextureImageUnits,
    MaxTessControlUniformComponents,
    MaxTessControlTotalOutputComponents,
    MaxTessEvaluationInputComponents,
    MaxTessEvaluationOutputComponents,
    MaxTessEvaluationTextureImageUnits,
    MaxTessEvaluationUniformComponents,
    MaxTessPatchComponents,
    MaxPatchVertices,
    MaxTessGenLevel,
    MaxViewports,
    MaxVertexAtomicCounters,
    MaxTessControlAtomicCounters,
    MaxTessEvaluationAtomicCounters,
    MaxGeometryAtomicCounters,
    MaxFragmentAtomicCounters,
    MaxCombinedAtomicCounters,
    MaxAtomicCounterBindings,
    MaxVertexAtomicCounterBuffers,
    MaxTessControlAtomicCounterBuffers,
    MaxTessEvaluationAtomicCounterBuffers,
    MaxGeometryAtomicCounterBuffers,
    MaxFragmentAtomicCounterBuffers,
    MaxCombinedAtomicCounterBuffers,
    MaxAtomicCounterBufferSize,
    MaxTransformFeedbackBuffers,
    MaxTransformFeedbackInterleavedComponents,
    MaxCullDistances,
    MaxCombinedClipAndCullDistances,
    MaxSamples,
}

/// One setting for the translator.
#[derive(Clone, Debug, PartialEq, Eq)]
pub enum Setting {
    TargetSpirv(SpirvVersion),
    /// Definition of a macro, with the text it expands to if it has one.
    Macro { name: String, value: Option<String> },
    AutoBindUniforms(bool),
    BindingBase { kind: ResourceKind, base: u32 },
    GenerateDebugInfo,
    ForcedVersionProfile { version: u32, profile: GlslProfile },
    TargetEnv { env: TargetEnv, version: u32 },
    HlslIoMapping(bool),
    HlslRegisterSetAndBinding { register: String, set: String, binding: String },
    HlslOffsets(bool),
    SourceLanguage(SourceLanguage),
    BindingBaseForStage { stage: ShaderKind, kind: ResourceKind, base: u32 },
    OptimizationLevel(OptimizationLevel),
    SuppressWarnings,
    WarningsAsErrors,
    Limit { limit: Limit, bound: i32 },
}

/// Mathematical content of a [`Setting`].
pub enum SettingView {
    TargetSpirv(SpirvVersion),
    Macro { name: Seq<char>, value: Option<Seq<char>> },
    AutoBindUniforms(bool),
    BindingBase { kind: ResourceKind, base: u32 },
    GenerateDebugInfo,
    ForcedVersionProfile { version: u32, profile: GlslProfile },
    TargetEnv { env: TargetEnv, version: u32 },
    HlslIoMapping(bool),
    HlslRegisterSetAndBinding { register: Seq<char>, set: Seq<char>, binding: Seq<char> },
    HlslOffsets(bool),
    SourceLanguage(SourceLanguage),
    BindingBaseForStage { stage: ShaderKind, kind: ResourceKind, base: u32 },
    OptimizationLevel(OptimizationLevel),
    SuppressWarnings,
    WarningsAsErrors,
    Limit { limit: Limit, bound: i32 },
}

impl View for Setting {
    type V = SettingView;

    open spec fn view(&self) -> SettingView {
        match self {
            Setting::TargetSpirv(version) => SettingView::TargetSpirv(*version),
            Setting::Macro { name, value } => SettingView::Macro {
                name: name@,
                value: match value {
                    Some(text) => Some(text@),
                    None => None,
                },
            },
            Setting::AutoBindUniforms(on) => SettingView::AutoBindUniforms(*on),
            Setting::BindingBase { kind, base } => SettingView::BindingBase {
                kind: *kind,
                base: *base,
            },
            Setting::GenerateDebugInfo => SettingView::GenerateDebugInfo,
            Setting::ForcedVersionProfile { version, profile } => SettingView::ForcedVersionProfile {
                version: *version,
                profile: *profile,
            },
            Setting::TargetEnv { env, version } => SettingView::TargetEnv {
                env: *env,
                version: *version,
            },
            Setting::HlslIoMapping(on) => SettingView::HlslIoMapping(*on),
            Setting::HlslRegisterSetAndBinding { register, set, binding } => {
                SettingView::HlslRegisterSetAndBinding {
                    register: register@,
                    set: set@,
                    binding: binding@,
                }
            },
            Setting::HlslOffsets(on) => SettingView::HlslOffsets(*on),
            Setting::SourceLanguage(language) => SettingView::SourceLanguage(*language),
            Setting::BindingBaseForStage { stage, kind, base } => {
                SettingView::BindingBaseForStage { stage: *stage, kind: *kind, base: *base }
            },
            Setting::OptimizationLevel(level) => SettingView::OptimizationLevel(*level),
            Setting::SuppressWarnings => SettingView::SuppressWarnings,
            Setting::WarningsAsErrors => SettingView::WarningsAsErrors,
            Setting::Limit { limit, bound } => SettingView::Limit { limit: *limit, bound: *bound },
        }
    }
}

/// Whether one of `settings` defines a macro.
pub open spec fn defines_macro(settings: Seq<SettingView>) -> bool {
    exists|i: int| 0 <= i < settings.len() && (#[trigger] settings[i]) is Macro
}

/// The contents of `settings`.
pub open spec fn settings_view(settings: Seq<Setting>) -> Seq<SettingView> {
    Seq::new(settings.len(), |i: int| settings[i]@)
}

/// The contents of `dirs`.
pub open spec fn dirs_view(dirs: Seq<String>) -> Seq<Seq<char>> {
    Seq::new(dirs.len(), |i: int| dirs[i]@)
}

/// Everything that is fixed before compiling starts: the settings for the
/// translator and the directories that inclusions are searched in.
#[derive(Debug)]
pub struct Configuration {
    settings: Vec<Setting>,
    include_dirs: Vec<String>,
    has_macros: bool,
}

/// Mathematical content of a [`Configuration`].
pub struct ConfigurationView {
    /// The settings, in the order in which they were made.
    pub settings: Seq<SettingView>,
    /// Directories searched for inclusions, in the order in which they
    /// were added.
    pub include_dirs: Seq<Seq<char>>,
}

impl ConfigurationView {
    /// Whether any macro has been defined.
    pub open spec fn has_macros(self) -> bool {
        defines_macro(self.settings)
    }
}

impl View for Configuration {
    type V = ConfigurationView;

    closed spec fn view(&self) -> ConfigurationView {
        ConfigurationView {
            settings: settings_view(self.settings@),
            include_dirs: dirs_view(self.include_dirs@),
        }
    }
}

impl Configuration {
    /// The flag is kept equal to what the settings say.
    #[verifier::type_invariant]
    spec fn flag_matches_settings(self) -> bool {
        self.has_macros == defines_macro(settings_view(self.settings@))
    }

    /// No settings and no directories.
    pub fn new() -> (config: Configuration)
        ensures
            config@.settings == Seq::<SettingView>::empty(),
            config@.include_dirs == Seq::<Seq<char>>::empty(),
    {
        let config = Configuration {
            settings: Vec::new(),
            include_dirs: Vec::new(),
            has_macros: false,
        };
        assert(config@.settings =~= Seq::<SettingView>::empty());
        assert(config@.include_dirs =~= Seq::<Seq<char>>::empty());
        config
    }

    /// The configuration with `setting` made after all earlier ones.
    pub fn with_setting(self, setting: Setting) -> (config: Configuration)
        ensures
            config@.settings == self@.settings.push(setting@),
            config@.include_dirs == self@.include_dirs,
    {
        proof {
            use_type_invariant(&self);
        }
        let is_macro = match &setting {
            Setting::Macro { .. } => true,
            _ => false,
        };
        let ghost before = settings_view(self.settings@);
        let Configuration { mut settings, include_dirs, has_macros } = self;
        settings.push(setting);
        proof {
            let after = settings_view(settings@);
            assert(after =~= before.push(setting@));
            if defines_macro(before) {
                let i = choose|i: int| 0 <= i < before.len() && (#[trigger] before[i]) is Macro;
                assert(after[i] is Macro);
            }
            if is_macro {
                assert(after[before.len() as int] is Macro);
            }
            if defines_macro(after) {
                let i = choose|i: int| 0 <= i < after.len() && (#[trigger] after[i]) is Macro;
                if i < before.len() {
                    assert(before[i] is Macro);
                }
            }
        }
        Configuration { settings, include_dirs, has_macros: has_macros || is_macro }
    }

    /// The configuration with `dir` searched after all earlier directories.
    pub fn with_include_dir(self, dir: String) -> (config: Configuration)
        ensures
            config@.settings == self@.settings,
            config@.include_dirs == self@.include_dirs.push(dir@),
    {
        proof {
            use_type_invariant(&self);
        }
        let ghost before = dirs_view(self.include_dirs@);
        let Configuration { settings, mut include_dirs, has_macros } = self;
        include_dirs.push(dir);
        assert(dirs_view(include_dirs@) =~= before.push(dir@));
        Configuration { settings, include_dirs, has_macros }
    }

    /// Whether any macro has been defined.
    pub fn has_macros(&self) -> (defined: bool)
        ensures
            defined == self@.has_macros(),
    {
        proof {
            use_type_invariant(self);
        }
        self.has_macros
    }

    /// The settings, in the order in which they were made.
    pub fn settings(&self) -> (settings: &Vec<Setting>)
        ensures
            settings_view(settings@) == self@.settings,
    {
        &self.settings
    }

    /// The directories searched for inclusions, in the order in which they
    /// were added.
    pub fn include_dirs(&self) -> (dirs: &Vec<String>)
        ensures
            dirs_view(dirs@) == self@.include_dirs,
    {
        &self.include_dirs
    }
}

} // verus!
