//! The tuning values that a pass runner takes with it.
//!
//! The engine defines the default of every knob, so a knob is recorded only
//! once its setter has been called: `None` stands for "left at the engine's
//! default", `Some(v)` for "set to `v`". The record is handed to the engine
//! when the runner that owns it runs.

use vstd::prelude::*;

verus! {

/// The knobs of the inlining heuristics.
#[derive(Debug, PartialEq, Eq)]
pub struct InliningOptions {
    pub always_inline_max_size: Option<u32>,
    pub one_caller_inline_max_size: Option<u32>,
    pub flexible_inline_max_size: Option<u32>,
    pub allow_functions_with_loops: Option<bool>,
    pub partial_inlining_ifs: Option<u32>,
}

/// One call of a setter of `InliningOptions`.
pub enum InliningSetting {
    AlwaysInlineMaxSize(u32),
    OneCallerInlineMaxSize(u32),
    FlexibleInlineMaxSize(u32),
    AllowFunctionsWithLoops(bool),
    PartialInliningIfs(u32),
}

impl InliningSetting {
    /// The number of the knob that this setting writes.
    pub open spec fn knob(self) -> int {
        match self {
            InliningSetting::AlwaysInlineMaxSize(_) => 0,
            InliningSetting::OneCallerInlineMaxSize(_) => 1,
            InliningSetting::FlexibleInlineMaxSize(_) => 2,
            InliningSetting::AllowFunctionsWithLoops(_) => 3,
            InliningSetting::PartialInliningIfs(_) => 4,
        }
    }
}

impl InliningOptions {
    /// The record in which every knob is left at the engine's default.
    pub open spec fn untouched() -> InliningOptions {
        InliningOptions {
            always_inline_max_size: None,
            one_caller_inline_max_size: None,
            flexible_inline_max_size: None,
            allow_functions_with_loops: None,
            partial_inlining_ifs: None,
        }
    }

    /// The record after `setting`: its knob holds the new value, the others
    /// are as before.
    pub open spec fn with(self, setting: InliningSetting) -> InliningOptions {
        match setting {
            InliningSetting::AlwaysInlineMaxSize(size) => InliningOptions {
                always_inline_max_size: Some(size),
                ..self
            },
            InliningSetting::OneCallerInlineMaxSize(size) => InliningOptions {
                one_caller_inline_max_size: Some(size),
                ..self
            },
            InliningSetting::FlexibleInlineMaxSize(size) => InliningOptions {
                flexible_inline_max_size: Some(size),
                ..self
            },
            InliningSetting::AllowFunctionsWithLoops(allow) => InliningOptions {
                allow_functions_with_loops: Some(allow),
                ..self
            },
            InliningSetting::PartialInliningIfs(number) => InliningOptions {
                partial_inlining_ifs: Some(number),
                ..self
            },
        }
    }

    /// Inlining options with the engine's defaults.
    pub fn new() -> (r: InliningOptions)
        ensures
            r == InliningOptions::untouched(),
    {
        InliningOptions {
            always_inline_max_size: None,
            one_caller_inline_max_size: None,
            flexible_inline_max_size: None,
            allow_functions_with_loops: None,
            partial_inlining_ifs: None,
        }
    }

    /// Functions up to this size are always inlined.
    pub fn set_always_inline_max_size(&mut self, size: u32)
        ensures
            *final(self) == old(self).with(InliningSetting::AlwaysInlineMaxSize(size)),
    {
        self.always_inline_max_size = Some(size);
    }

    /// Functions up to this size are inlined where they have one caller.
    pub fn set_one_caller_inline_max_size(&mut self, size: u32)
        ensures
            *final(self) == old(self).with(InliningSetting::OneCallerInlineMaxSize(size)),
    {
        self.one_caller_inline_max_size = Some(size);
    }

    /// Functions up to this size are inlined where the engine judges it
    /// worthwhile.
    pub fn set_flexible_inline_max_size(&mut self, size: u32)
        ensures
            *final(self) == old(self).with(InliningSetting::FlexibleInlineMaxSize(size)),
    {
        self.flexible_inline_max_size = Some(size);
    }

    /// Whether functions that contain loops may be inlined.
    pub fn set_allow_functions_with_loops(&mut self, allow: bool)
        ensures
            *final(self) == old(self).with(InliningSetting::AllowFunctionsWithLoops(allow)),
    {
        self.allow_functions_with_loops = Some(allow);
    }

    /// The number of `if`s up to which a function is inlined in part.
    pub fn set_partial_inlining_ifs(&mut self, number: u32)
        ensures
            *final(self) == old(self).with(InliningSetting::PartialInliningIfs(number)),
    {
        self.partial_inlining_ifs = Some(number);
    }
}

/// The knobs of a pass run. Levels are handed to the engine as they are:
/// which values are valid, and what they mean, is the engine's to say.
#[derive(Debug, PartialEq, Eq)]
pub struct PassOptions {
    pub validate: Option<bool>,
    pub validate_globally: Option<bool>,
    pub optimize_level: Option<i32>,
    pub shrink_level: Option<i32>,
    pub inlining: Option<InliningOptions>,
    pub traps_never_happen: Option<bool>,
    pub low_memory_unused: Option<bool>,
    pub fast_math: Option<bool>,
    pub zero_filled_memory: Option<bool>,
    pub debug_info: Option<bool>,
}

/// One call of a setter of `PassOptions`.
pub enum PassSetting {
    Validate(bool),
    ValidateGlobally(bool),
    OptimizeLevel(i32),
    ShrinkLevel(i32),
    Inlining(InliningOptions),
    TrapsNeverHappen(bool),
    LowMemoryUnused(bool),
    FastMath(bool),
    ZeroFilledMemory(bool),
    DebugInfo(bool),
}

impl PassSetting {
    /// The number of the knob that this setting writes.
    pub open spec fn knob(self) -> int {
        match self {
            PassSetting::Validate(_) => 0,
            PassSetting::ValidateGlobally(_) => 1,
            PassSetting::OptimizeLevel(_) => 2,
            PassSetting::ShrinkLevel(_) => 3,
            PassSetting::Inlining(_) => 4,
            PassSetting::TrapsNeverHappen(_) => 5,
            PassSetting::LowMemoryUnused(_) => 6,
            PassSetting::FastMath(_) => 7,
            PassSetting::ZeroFilledMemory(_) => 8,
            PassSetting::DebugInfo(_) => 9,
        }
    }
}

impl PassOptions {
    /// The record in which every knob is left at the engine's default.
    pub open spec fn untouched() -> PassOptions {
        PassOptions {
            validate: None,
            validate_globally: None,
            optimize_level: None,
            shrink_level: None,
            inlining: None,
            traps_never_happen: None,
            low_memory_unused: None,
            fast_math: None,
            zero_filled_memory: None,
            debug_info: None,
        }
    }

    /// The record after `setting`: its knob holds the new value, the others
    /// are as before.
    pub open spec fn with(self, setting: PassSetting) -> PassOptions {
        match setting {
            PassSetting::Validate(validate) => PassOptions { validate: Some(validate), ..self },
            PassSetting::ValidateGlobally(validate) => PassOptions {
                validate_globally: Some(validate),
                ..self
            },
            PassSetting::OptimizeLevel(level) => PassOptions {
                optimize_level: Some(level),
                ..self
            },
            PassSetting::ShrinkLevel(level) => PassOptions { shrink_level: Some(level), ..self },
            PassSetting::Inlining(inlining) => PassOptions { inlining: Some(inlining), ..self },
            PassSetting::TrapsNeverHappen(ignore_traps) => PassOptions {
                traps_never_happen: Some(ignore_traps),
                ..self
            },
            PassSetting::LowMemoryUnused(memory_unused) => PassOptions {
                low_memory_unused: Some(memory_unused),
                ..self
            },
            PassSetting::FastMath(fast_math) => PassOptions {
                fast_math: Some(fast_math),
                ..self
            },
            PassSetting::ZeroFilledMemory(zero_filled_memory) => PassOptions {
                zero_filled_memory: Some(zero_filled_memory),
                ..self
            },
            PassSetting::DebugInfo(debug_info) => PassOptions {
                debug_info: Some(debug_info),
                ..self
            },
        }
    }

    /// Pass options with the engine's defaults.
    pub fn new() -> (r: PassOptions)
        ensures
            r == PassOptions::untouched(),
    {
        PassOptions {
            validate: None,
            validate_globally: None,
            optimize_level: None,
            shrink_level: None,
            inlining: None,
            traps_never_happen: None,
            low_memory_unused: None,
            fast_math: None,
            zero_filled_memory: None,
            debug_info: None,
        }
    }

    /// Whether the module is validated after each pass that changes it.
    pub fn set_validate(&mut self, validate: bool)
        ensures
            *final(self) == old(self).with(PassSetting::Validate(validate)),
    {
        self.validate = Some(validate);
    }

    /// Whether validation covers the rules that span the whole module.
    pub fn set_validate_globally(&mut self, validate: bool)
        ensures
            *final(self) == old(self).with(PassSetting::ValidateGlobally(validate)),
    {
        self.validate_globally = Some(validate);
    }

    /// How much to optimize for speed. No range is imposed here.
    pub fn set_optimize_level(&mut self, level: i32)
        ensures
            *final(self) == old(self).with(PassSetting::OptimizeLevel(level)),
    {
        self.optimize_level = Some(level);
    }

    /// How much to optimize for size. No range is imposed here.
    pub fn set_shrink_level(&mut self, level: i32)
        ensures
            *final(self) == old(self).with(PassSetting::ShrinkLevel(level)),
    {
        self.shrink_level = Some(level);
    }

    /// Attaches inlining options. The options move into this record: the
    /// caller keeps no handle to them.
    pub fn set_inlining_options(&mut self, inlining: InliningOptions)
        ensures
            *final(self) == old(self).with(PassSetting::Inlining(inlining)),
    {
        self.inlining = Some(inlining);
    }

    /// Whether the optimizer may assume that no trap is ever reached.
    pub fn set_traps_never_happen(&mut self, ignore_traps: bool)
        ensures
            *final(self) == old(self).with(PassSetting::TrapsNeverHappen(ignore_traps)),
    {
        self.traps_never_happen = Some(ignore_traps);
    }

    /// Whether the optimizer may assume that low memory is unused.
    pub fn set_low_memory_unused(&mut self, memory_unused: bool)
        ensures
            *final(self) == old(self).with(PassSetting::LowMemoryUnused(memory_unused)),
    {
        self.low_memory_unused = Some(memory_unused);
    }

    /// Whether floating-point corner cases may be ignored.
    pub fn set_fast_math(&mut self, fast_math: bool)
        ensures
            *final(self) == old(self).with(PassSetting::FastMath(fast_math)),
    {
        self.fast_math = Some(fast_math);
    }

    /// Whether the optimizer may assume that imported memory starts zeroed.
    pub fn set_zero_filled_memory(&mut self, zero_filled_memory: bool)
        ensures
            *final(self) == old(self).with(PassSetting::ZeroFilledMemory(zero_filled_memory)),
    {
        self.zero_filled_memory = Some(zero_filled_memory);
    }

    /// Whether debug information is kept through the passes.
    pub fn set_debug_info(&mut self, debug_info: bool)
        ensures
            *final(self) == old(self).with(PassSetting::DebugInfo(debug_info)),
    {
        self.debug_info = Some(debug_info);
    }
}

/// Setters of distinct inlining knobs do not depend on the order of their
/// calls.
pub proof fn lemma_inlining_settings_commute(
    options: InliningOptions,
    first: InliningSetting,
    second: InliningSetting,
)
    requires
        first.knob() != second.knob(),
    ensures
        options.with(first).with(second) == options.with(second).with(first),
{
}

/// Of two calls of one inlining setter, the later one decides.
pub proof fn lemma_inlining_last_write_wins(
    options: InliningOptions,
    first: InliningSetting,
    second: InliningSetting,
)
    requires
        first.knob() == second.knob(),
    ensures
        options.with(first).with(second) == options.with(second),
{
}

/// Setters of distinct pass knobs do not depend on the order of their calls.
pub proof fn lemma_pass_settings_commute(
    options: PassOptions,
    first: PassSetting,
    second: PassSetting,
)
    requires
        first.knob() != second.knob(),
    ensures
        options.with(first).with(second) == options.with(second).with(first),
{
}

/// Of two calls of one pass setter, the later one decides.
pub proof fn lemma_pass_last_write_wins(
    options: PassOptions,
    first: PassSetting,
    second: PassSetting,
)
    requires
        first.knob() == second.knob(),
    ensures
        options.with(first).with(second) == options.with(second),
{
}

} // verus!
