use wasm_opt::options::{InliningOptions, PassOptions};
use wasm_opt::runner::{Pass, PassRunner};

fn named(name: &str) -> Pass {
    Pass::Named(name.to_string())
}

#[test]
fn fresh_inlining_options_leave_every_knob_alone() {
    let options = InliningOptions::new();
    assert_eq!(
        options,
        InliningOptions {
            always_inline_max_size: None,
            one_caller_inline_max_size: None,
            flexible_inline_max_size: None,
            allow_functions_with_loops: None,
            partial_inlining_ifs: None,
        }
    );
}

#[test]
fn inlining_setters_write_their_own_knob() {
    let mut options = InliningOptions::new();
    options.set_always_inline_max_size(2);
    options.set_one_caller_inline_max_size(u32::MAX);
    options.set_flexible_inline_max_size(20);
    options.set_allow_functions_with_loops(true);
    options.set_partial_inlining_ifs(4);
    assert_eq!(
        options,
        InliningOptions {
            always_inline_max_size: Some(2),
            one_caller_inline_max_size: Some(u32::MAX),
            flexible_inline_max_size: Some(20),
            allow_functions_with_loops: Some(true),
            partial_inlining_ifs: Some(4),
        }
    );
}

#[test]
fn inlining_setters_commute() {
    let mut one = InliningOptions::new();
    one.set_flexible_inline_max_size(7);
    one.set_allow_functions_with_loops(false);
    let mut other = InliningOptions::new();
    other.set_allow_functions_with_loops(false);
    other.set_flexible_inline_max_size(7);
    assert_eq!(one, other);
}

#[test]
fn later_inlining_setting_wins() {
    let mut options = InliningOptions::new();
    options.set_partial_inlining_ifs(1);
    options.set_partial_inlining_ifs(9);
    assert_eq!(options.partial_inlining_ifs, Some(9));
}

#[test]
fn fresh_pass_options_leave_every_knob_alone() {
    let options = PassOptions::new();
    assert_eq!(
        options,
        PassOptions {
            validate: None,
            validate_globally: None,
            optimize_level: None,
            shrink_level: None,
            inlining: None,
            traps_never_happen: None,
            low_memory_unused: None,
            fast_math: None,
            zero_filled_memory: None,
            debug_info: None,
        }
    );
}

#[test]
fn pass_setters_write_their_own_knob() {
    let mut inlining = InliningOptions::new();
    inlining.set_always_inline_max_size(3);
    let mut options = PassOptions::new();
    options.set_validate(true);
    options.set_validate_globally(false);
    options.set_optimize_level(2);
    options.set_shrink_level(1);
    options.set_inlining_options(inlining);
    options.set_traps_never_happen(true);
    options.set_low_memory_unused(false);
    options.set_fast_math(true);
    options.set_zero_filled_memory(false);
    options.set_debug_info(true);
    let mut expected_inlining = InliningOptions::new();
    expected_inlining.set_always_inline_max_size(3);
    assert_eq!(
        options,
        PassOptions {
            validate: Some(true),
            validate_globally: Some(false),
            optimize_level: Some(2),
            shrink_level: Some(1),
            inlining: Some(expected_inlining),
            traps_never_happen: Some(true),
            low_memory_unused: Some(false),
            fast_math: Some(true),
            zero_filled_memory: Some(false),
            debug_info: Some(true),
        }
    );
}

#[test]
fn levels_pass_through_unchecked() {
    let mut options = PassOptions::new();
    options.set_optimize_level(i32::MIN);
    options.set_shrink_level(i32::MAX);
    assert_eq!(options.optimize_level, Some(i32::MIN));
    assert_eq!(options.shrink_level, Some(i32::MAX));
}

#[test]
fn pass_setters_commute() {
    let mut one = PassOptions::new();
    one.set_shrink_level(2);
    one.set_fast_math(true);
    one.set_debug_info(false);
    let mut other = PassOptions::new();
    other.set_debug_info(false);
    other.set_fast_math(true);
    other.set_shrink_level(2);
    assert_eq!(one, other);
}

#[test]
fn later_pass_setting_wins() {
    let mut options = PassOptions::new();
    options.set_optimize_level(4);
    options.set_validate(false);
    options.set_optimize_level(0);
    assert_eq!(options.optimize_level, Some(0));
    assert_eq!(options.validate, Some(false));
}

#[test]
fn later_inlining_options_replace_earlier_ones() {
    let mut first = InliningOptions::new();
    first.set_partial_inlining_ifs(1);
    let mut second = InliningOptions::new();
    second.set_flexible_inline_max_size(5);
    let mut options = PassOptions::new();
    options.set_inlining_options(first);
    options.set_inlining_options(second);
    let mut expected = InliningOptions::new();
    expected.set_flexible_inline_max_size(5);
    assert_eq!(options.inlining, Some(expected));
}

#[test]
fn new_runner_runs_nothing_under_defaults() {
    let mut module = 0u32;
    let request = PassRunner::new(&mut module).run();
    assert_eq!(request.options, PassOptions::new());
    assert_eq!(request.passes, Vec::new());
}

#[test]
fn runner_without_options_is_runner_with_fresh_options() {
    let mut one = 7u32;
    let mut other = 7u32;
    let mut plain = PassRunner::new(&mut one);
    plain.add("dce");
    let mut explicit = PassRunner::with_options(&mut other, PassOptions::new());
    explicit.add("dce");
    assert_eq!(plain.run(), explicit.run());
}

#[test]
fn runner_keeps_its_options() {
    let mut module = 0u32;
    let mut options = PassOptions::new();
    options.set_optimize_level(3);
    options.set_traps_never_happen(true);
    let request = PassRunner::with_options(&mut module, options).run();
    let mut expected = PassOptions::new();
    expected.set_optimize_level(3);
    expected.set_traps_never_happen(true);
    assert_eq!(request.options, expected);
    assert_eq!(request.passes, Vec::new());
}

#[test]
fn request_runs_on_the_module_the_runner_was_bound_to() {
    let mut module = vec![1u8, 2, 3];
    let mut runner = PassRunner::new(&mut module);
    runner.add("vacuum");
    let request = runner.run();
    assert_eq!(*request.module, vec![1u8, 2, 3]);
    request.module.push(4);
    assert_eq!(module, vec![1u8, 2, 3, 4]);
}

#[test]
fn passes_run_in_the_order_added() {
    let mut module = 0u32;
    let mut runner = PassRunner::new(&mut module);
    runner.add("A");
    runner.add("B");
    runner.add("C");
    assert_eq!(runner.run().passes, vec![named("A"), named("B"), named("C")]);
}

#[test]
fn reversed_additions_give_the_reversed_queue() {
    let mut module = 0u32;
    let mut runner = PassRunner::new(&mut module);
    runner.add("C");
    runner.add("B");
    runner.add("A");
    assert_eq!(runner.run().passes, vec![named("C"), named("B"), named("A")]);
}

#[test]
fn default_passes_keep_their_place_among_named_ones() {
    let mut module = 0u32;
    let mut runner = PassRunner::new(&mut module);
    runner.add("remove-unused-names");
    runner.add_default_optimization_passes();
    runner.add("vacuum");
    runner.add_default_optimization_passes();
    assert_eq!(
        runner.run().passes,
        vec![
            named("remove-unused-names"),
            Pass::DefaultOptimization,
            named("vacuum"),
            Pass::DefaultOptimization,
        ]
    );
}

#[test]
fn a_pass_added_twice_is_queued_twice() {
    let mut module = 0u32;
    let mut runner = PassRunner::new(&mut module);
    runner.add("dce");
    runner.add("dce");
    assert_eq!(runner.run().passes, vec![named("dce"), named("dce")]);
}

#[test]
fn unknown_pass_name_is_queued_unchecked() {
    let mut module = 0u32;
    let mut runner = PassRunner::new(&mut module);
    runner.add("definitely-not-a-real-pass");
    assert_eq!(
        runner.run().passes,
        vec![named("definitely-not-a-real-pass")]
    );
}

#[test]
fn empty_pass_name_is_queued_unchecked() {
    let mut module = 0u32;
    let mut runner = PassRunner::new(&mut module);
    runner.add("");
    assert_eq!(runner.run().passes, vec![named("")]);
}
