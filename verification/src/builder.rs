//! Step-by-step construction of a compiler.

use vstd::prelude::*;
use vstd::string::*;
use crate::compiler::Compiler;
use crate::options::{
    Configuration, ConfigurationView, GlslProfile, Limit, OptimizationLevel, ResourceKind,
    Setting, SettingView, ShaderKind, SourceLanguage, SpirvVersion, TargetEnv,
};

verus! {

/// Collects settings and search directories for a compiler, each in the
/// order in which it is given.
#[derive(Debug)]
pub struct CompilerBuilder {
    config: Configuration,
}

impl View for CompilerBuilder {
    type V = ConfigurationView;

    closed spec fn view(&self) -> ConfigurationView {
        self.config@
    }
}

impl ConfigurationView {
    /// The configuration with `setting` made after all earlier ones.
    pub open spec fn with(self, setting: SettingView) -> ConfigurationView {
        ConfigurationView {
            settings: self.settings.push(setting),
            include_dirs: self.include_dirs,
        }
    }
}

/// The content of an optional text.
pub open spec fn optional_text(text: Option<&str>) -> Option<Seq<char>> {
    match text {
        Some(text) => Some(text@),
        None => None,
    }
}

impl Default for CompilerBuilder {
    fn default() -> (builder: Self)
        ensures
            builder@.settings == Seq::<SettingView>::empty(),
            builder@.include_dirs == Seq::<Seq<char>>::empty(),
    {
        CompilerBuilder::new()
    }
}

impl CompilerBuilder {
    /// A builder with no settings and no search directories.
    pub fn new() -> (builder: CompilerBuilder)
        ensures
            builder@.settings == Seq::<SettingView>::empty(),
            builder@.include_dirs == Seq::<Seq<char>>::empty(),
    {
        CompilerBuilder { config: Configuration::new() }
    }

    /// Records `setting` after all earlier settings.
    fn with(self, setting: Setting) -> (builder: Self)
        ensures
            builder@ == self@.with(setting@),
    {
        CompilerBuilder { config: self.config.with_setting(setting) }
    }

    /// Sets the version of the binary format to produce.
    pub fn with_target_spirv(self, version: SpirvVersion) -> (builder: Self)
        ensures
            builder@ == self@.with(SettingView::TargetSpirv(version)),
    {
        self.with(Setting::TargetSpirv(version))
    }

    /// Defines the macro `name`, with `value` as its text if there is one.
    /// From then on the compiler to be built counts as having macros.
    pub fn with_macro(self, name: &str, value: Option<&str>) -> (builder: Self)
        ensures
            builder@ == self@.with(SettingView::Macro { name: name@, value: optional_text(value) }),
            builder@.has_macros(),
    {
        let setting = Setting::Macro {
            name: String::from_str(name),
            value: match value {
                Some(text) => Some(String::from_str(text)),
                None => None,
            },
        };
        let builder = self.with(setting);
        proof {
            let settings = builder@.settings;
            assert(settings[settings.len() - 1] is Macro);
        }
        builder
    }

    /// Sets whether uniforms without a binding are given one.
    pub fn with_auto_bind_uniforms(self, auto_bind: bool) -> (builder: Self)
        ensures
            builder@ == self@.with(SettingView::AutoBindUniforms(auto_bind)),
    {
        self.with(Setting::AutoBindUniforms(auto_bind))
    }

    /// Sets the first binding number given to resources of `kind`.
    pub fn with_binding_base(self, kind: ResourceKind, base: u32) -> (builder: Self)
        ensures
            builder@ == self@.with(SettingView::BindingBase { kind, base }),
    {
        self.with(Setting::BindingBase { kind, base })
    }

    /// Asks for debug information in the binary.
    pub fn generate_debug_info(self) -> (builder: Self)
        ensures
            builder@ == self@.with(SettingView::GenerateDebugInfo),
    {
        self.with(Setting::GenerateDebugInfo)
    }

    /// Forces the language version and profile, whatever the source says.
    pub fn force_version_profile(self, version: u32, profile: GlslProfile) -> (builder: Self)
        ensures
            builder@ == self@.with(SettingView::ForcedVersionProfile { version, profile }),
    {
        self.with(Setting::ForcedVersionProfile { version, profile })
    }

    /// Sets the target environment and its version.
    pub fn with_target_env(self, env: TargetEnv, version: u32) -> (builder: Self)
        ensures
            builder@ == self@.with(SettingView::TargetEnv { env, version }),
    {
        self.with(Setting::TargetEnv { env, version })
    }

    /// Sets whether HLSL rules are used for input and output mapping.
    pub fn with_hlsl_io_mapping(self, iomap: bool) -> (builder: Self)
        ensures
            builder@ == self@.with(SettingView::HlslIoMapping(iomap)),
    {
        self.with(Setting::HlslIoMapping(iomap))
    }

    /// Sets the descriptor set and binding of an HLSL register.
    pub fn with_hlsl_register_set_and_binding(
        self,
        register: &str,
        set: &str,
        binding: &str,
    ) -> (builder: Self)
        ensures
            builder@ == self@.with(
                SettingView::HlslRegisterSetAndBinding {
                    register: register@,
                    set: set@,
                    binding: binding@,
                },
            ),
    {
        self.with(
            Setting::HlslRegisterSetAndBinding {
                register: String::from_str(register),
                set: String::from_str(set),
                binding: String::from_str(binding),
            },
        )
    }

    /// Sets whether HLSL rules are used for member offsets.
    pub fn with_hlsl_offsets(self, offsets: bool) -> (builder: Self)
        ensures
            builder@ == self@.with(SettingView::HlslOffsets(offsets)),
    {
        self.with(Setting::HlslOffsets(offsets))
    }

    /// Sets the language that sources are written in.
    pub fn with_source_language(self, lang: SourceLanguage) -> (builder: Self)
        ensures
            builder@ == self@.with(SettingView::SourceLanguage(lang)),
    {
        self.with(Setting::SourceLanguage(lang))
    }

    /// Sets the first binding number given to resources of
    /// `resource_kind` in the stage `kind`.
    pub fn with_binding_base_for_stage(
        self,
        kind: ShaderKind,
        resource_kind: ResourceKind,
        base: u32,
    ) -> (builder: Self)
        ensures
            builder@ == self@.with(
                SettingView::BindingBaseForStage { stage: kind, kind: resource_kind, base },
            ),
    {
        self.with(Setting::BindingBaseForStage { stage: kind, kind: resource_kind, base })
    }

    /// Sets how far the translator optimizes.
    pub fn with_opt_level(self, level: OptimizationLevel) -> (builder: Self)
        ensures
            builder@ == self@.with(SettingView::OptimizationLevel(level)),
    {
        self.with(Setting::OptimizationLevel(level))
    }

    /// Asks the translator to report no warnings.
    pub fn supress_warnings(self) -> (builder: Self)
        ensures
            builder@ == self@.with(SettingView::SuppressWarnings),
    {
        self.with(Setting::SuppressWarnings)
    }

    /// Asks the translator to treat warnings as errors.
    pub fn with_warnings_as_errors(self) -> (builder: Self)
        ensures
            builder@ == self@.with(SettingView::WarningsAsErrors),
    {
        self.with(Setting::WarningsAsErrors)
    }

    /// Sets the resource limit `limit` to `value`.
    pub fn with_limit(self, limit: Limit, value: i32) -> (builder: Self)
        ensures
            builder@ == self@.with(SettingView::Limit { limit, bound: value }),
    {
        self.with(Setting::Limit { limit, bound: value })
    }

    /// Adds `path` to the search path, behind the directories added so
    /// far: a file found in an earlier directory hides one of the same
    /// name in `path`.
    pub fn with_include_dir(self, path: &str) -> (builder: Self)
        ensures
            builder@.settings == self@.settings,
            builder@.include_dirs == self@.include_dirs.push(path@),
    {
        CompilerBuilder { config: self.config.with_include_dir(String::from_str(path)) }
    }

    /// The compiler with the settings and the search path collected so
    /// far, and with nothing in its cache.
    pub fn build(self) -> (compiler: Compiler)
        ensures
            compiler@.settings == self@.settings,
            compiler@.include_dirs == self@.include_dirs,
            compiler@.cache == Map::<Seq<char>, Seq<u32>>::empty(),
    {
        Compiler::with_configuration(self.config)
    }
}

} // verus!
