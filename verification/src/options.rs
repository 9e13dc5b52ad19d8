use vstd::prelude::*;

verus! {

/// The switches of the engine, each off by default.
#[derive(Copy, Clone)]
pub struct JSOptions {
    pub disable_asmjs: bool,
    pub disable_wasm: bool,
    pub disable_wasm_ion: bool,
    pub disable_wasm_baseline: bool,
    pub disable_ion: bool,
    pub disable_baseline: bool,
    pub disable_parallel_parsing: bool,
    pub disable_offthread_compilation: bool,
    pub enable_baseline_unsafe_eager_compilation: bool,
    pub enable_ion_unsafe_eager_compilation: bool,
    pub enable_werror: bool,
    pub enable_strict: bool,
    pub disable_native_regexp: bool,
}

impl Default for JSOptions {
    fn default() -> (o: Self)
        ensures
            !o.disable_asmjs,
            !o.disable_wasm,
            !o.disable_wasm_ion,
            !o.disable_wasm_baseline,
            !o.disable_ion,
            !o.disable_baseline,
            !o.disable_parallel_parsing,
            !o.disable_offthread_compilation,
            !o.enable_baseline_unsafe_eager_compilation,
            !o.enable_ion_unsafe_eager_compilation,
            !o.enable_werror,
            !o.enable_strict,
            !o.disable_native_regexp,
    {
        JSOptions {
            disable_asmjs: false,
            disable_wasm: false,
            disable_wasm_ion: false,
            disable_wasm_baseline: false,
            disable_ion: false,
            disable_baseline: false,
            disable_parallel_parsing: false,
            disable_offthread_compilation: false,
            enable_baseline_unsafe_eager_compilation: false,
            enable_ion_unsafe_eager_compilation: false,
            enable_werror: false,
            enable_strict: false,
            disable_native_regexp: false,
        }
    }
}

/// The value given to a JIT compiler option that is switched to zero.
pub const JIT_ZERO: u32 = 0;

/// The value given to a JIT compiler option that is reset (`-1` as an
/// unsigned 32-bit number).
pub const JIT_RESET: u32 = 0xffff_ffff;

/// The JIT option value for a condition: zero when it holds, reset otherwise.
pub open spec fn jit_value(zero: bool) -> u32 {
    if zero { JIT_ZERO } else { JIT_RESET }
}

/// What the engine is told for a set of options: the context options, the
/// process-wide build id hook, the helper-thread switches and the JIT
/// compiler options, in the order in which they are applied.
#[derive(Copy, Clone, Debug)]
pub struct EngineSettings {
    pub asm_js: bool,
    pub extra_warnings: bool,
    pub werror: bool,
    pub wasm: bool,
    pub wasm_baseline: bool,
    pub wasm_ion: bool,
    /// Whether the build id hook is installed (wasm modules need it).
    pub install_build_id: bool,
    pub parallel_parsing: bool,
    pub offthread_ion_compilation: bool,
    pub baseline_warmup_trigger: u32,
    pub ion_full_warmup_trigger: u32,
    pub baseline_enable: u32,
    pub ion_enable: u32,
    pub native_regexp_enable: u32,
}

impl JSOptions {
    /// The settings that these options stand for.
    pub open spec fn spec_settings(self) -> EngineSettings {
        EngineSettings {
            asm_js: !self.disable_asmjs,
            extra_warnings: self.enable_strict,
            werror: self.enable_werror,
            wasm: !self.disable_wasm,
            wasm_baseline: !self.disable_wasm_baseline,
            wasm_ion: !self.disable_wasm_ion,
            install_build_id: !self.disable_wasm,
            parallel_parsing: !self.disable_parallel_parsing,
            offthread_ion_compilation: !self.disable_offthread_compilation,
            baseline_warmup_trigger: jit_value(self.enable_baseline_unsafe_eager_compilation),
            ion_full_warmup_trigger: jit_value(self.enable_ion_unsafe_eager_compilation),
            baseline_enable: jit_value(!self.disable_baseline),
            ion_enable: jit_value(!self.disable_ion),
            native_regexp_enable: jit_value(!self.disable_native_regexp),
        }
    }

    /// The settings that the engine is given for these options.
    pub fn settings(&self) -> (s: EngineSettings)
        ensures
            s == self.spec_settings(),
            s.asm_js == !self.disable_asmjs,
            s.extra_warnings == self.enable_strict,
            s.werror == self.enable_werror,
            s.wasm == !self.disable_wasm,
            s.wasm_baseline == !self.disable_wasm_baseline,
            s.wasm_ion == !self.disable_wasm_ion,
            s.install_build_id == !self.disable_wasm,
            s.parallel_parsing == !self.disable_parallel_parsing,
            s.offthread_ion_compilation == !self.disable_offthread_compilation,
            s.baseline_warmup_trigger == (if self.enable_baseline_unsafe_eager_compilation { 0u32 } else { 0xffff_ffffu32 }),
            s.ion_full_warmup_trigger == (if self.enable_ion_unsafe_eager_compilation { 0u32 } else { 0xffff_ffffu32 }),
            s.baseline_enable == (if self.disable_baseline { 0xffff_ffffu32 } else { 0u32 }),
            s.ion_enable == (if self.disable_ion { 0xffff_ffffu32 } else { 0u32 }),
            s.native_regexp_enable == (if self.disable_native_regexp { 0xffff_ffffu32 } else { 0u32 }),
    {
        EngineSettings {
            asm_js: !self.disable_asmjs,
            extra_warnings: self.enable_strict,
            werror: self.enable_werror,
            wasm: !self.disable_wasm,
            wasm_baseline: !self.disable_wasm_baseline,
            wasm_ion: !self.disable_wasm_ion,
            install_build_id: !self.disable_wasm,
            parallel_parsing: !self.disable_parallel_parsing,
            offthread_ion_compilation: !self.disable_offthread_compilation,
            baseline_warmup_trigger: jit_option(self.enable_baseline_unsafe_eager_compilation),
            ion_full_warmup_trigger: jit_option(self.enable_ion_unsafe_eager_compilation),
            baseline_enable: jit_option(!self.disable_baseline),
            ion_enable: jit_option(!self.disable_ion),
            native_regexp_enable: jit_option(!self.disable_native_regexp),
        }
    }
}

/// The JIT option value for a condition: zero when it holds, reset otherwise.
pub fn jit_option(zero: bool) -> (v: u32)
    ensures
        v == jit_value(zero),
{
    if zero { JIT_ZERO } else { JIT_RESET }
}

/// The wasm build id hook is installed exactly when wasm is on.
pub proof fn lemma_build_id_with_wasm(o: JSOptions)
    ensures
        o.spec_settings().install_build_id == o.spec_settings().wasm,
{
}

/// Each engine setting follows its own switch and no other: asm.js, wasm and
/// its two compilers, parallel parsing and off-thread Ion compilation are on
/// unless disabled; strict mode turns on extra warnings and `werror` turns
/// warnings into errors; the build id hook comes with wasm; the eager
/// compilation switches set their warm-up triggers to zero (else reset), and
/// the baseline, Ion and native regexp JIT options are zero unless disabled
/// (then reset).
pub proof fn lemma_settings_follow_switches(o: JSOptions)
    ensures
            o.spec_settings().asm_js == !o.disable_asmjs,
            o.spec_settings().extra_warnings == o.enable_strict,
            o.spec_settings().werror == o.enable_werror,
            o.spec_settings().wasm == !o.disable_wasm,
            o.spec_settings().wasm_baseline == !o.disable_wasm_baseline,
            o.spec_settings().wasm_ion == !o.disable_wasm_ion,
            o.spec_settings().install_build_id == !o.disable_wasm,
            o.spec_settings().parallel_parsing == !o.disable_parallel_parsing,
            o.spec_settings().offthread_ion_compilation == !o.disable_offthread_compilation,
            o.spec_settings().baseline_warmup_trigger == (if o.enable_baseline_unsafe_eager_compilation { 0u32 } else { 0xffff_ffffu32 }),
            o.spec_settings().ion_full_warmup_trigger == (if o.enable_ion_unsafe_eager_compilation { 0u32 } else { 0xffff_ffffu32 }),
            o.spec_settings().baseline_enable == (if o.disable_baseline { 0xffff_ffffu32 } else { 0u32 }),
            o.spec_settings().ion_enable == (if o.disable_ion { 0xffff_ffffu32 } else { 0u32 }),
            o.spec_settings().native_regexp_enable == (if o.disable_native_regexp { 0xffff_ffffu32 } else { 0u32 }),
{
}

} // verus!
