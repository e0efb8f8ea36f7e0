use mrb_build::bindings::{
    binding_params, bindings_out_path, link_lib_line, maybe_build, presym_header_path,
    presym_out_path, vendored_include_args, wrapper_h_contents, wrapper_h_path,
};
use mrb_build::config::{classify_dialect, CompilerTool, Dialect};
use mrb_build::layout::{
    cargo_flag_lines, classify_build_result, download_url, rerun_env_line, rerun_lines,
    teardown_action, BuildError, ScratchLayout, TeardownAction,
};
use mrb_build::text::{contains_sub, starts_with, to_decimal};
use mrb_build::Build;

const TARGET: &str = "x86_64-unknown-linux-gnu";

#[test]
fn new_build_has_the_default_settings() {
    let b = Build::new();
    assert!(b.enable_test);
    assert!(b.enable_bintest);
    assert!(!b.enable_debug);
    assert!(b.enable_default_gembox);
    assert_eq!(b.mruby_version, "3.1.0");
    let d = Build::default();
    assert_eq!(d.mruby_version, "3.1.0");
    assert_eq!(d.version().as_str(), "3.1.0");
}

#[test]
fn setters_change_only_their_own_setting() {
    let mut b = Build::new();
    b.enable_test(false);
    assert!(!b.enable_test);
    assert!(b.enable_bintest);
    b.enable_bintest(false);
    assert!(!b.enable_bintest);
    b.enable_debug(true);
    assert!(b.enable_debug);
    b.enable_default_gembox(false);
    assert!(!b.enable_default_gembox);
    b.mruby_version("3.2.0");
    assert_eq!(b.mruby_version, "3.2.0");
    assert!(b.enable_debug);
}

#[test]
fn config_with_all_flags_off_has_only_the_mandatory_lines() {
    let mut b = Build::new();
    b.enable_test(false);
    b.enable_bintest(false);
    b.enable_debug(false);
    b.enable_default_gembox(false);
    let text = b.render_build_config(TARGET, &None);
    let expected = "MRUBY_VERSION = '3.1.0'\nMRUBY_TARGET = 'x86_64-unknown-linux-gnu'\nMRuby::CrossBuild.new('target') do |conf|\n  conf.toolchain :gcc\n  conf.host_target = MRUBY_TARGET\nend\n";
    assert_eq!(text, expected);
}

#[test]
fn config_with_test_and_gembox_has_those_two_lines_only() {
    let mut b = Build::new();
    b.enable_test(true);
    b.enable_bintest(false);
    b.enable_debug(false);
    b.enable_default_gembox(true);
    let text = b.render_build_config(TARGET, &None);
    assert!(text.contains("  conf.enable_test\n"));
    assert!(text.contains("  conf.gembox 'default'\n"));
    assert!(!text.contains("enable_bintest"));
    assert!(!text.contains("enable_debug"));
}

#[test]
fn config_writes_the_probed_compiler_command() {
    let b = Build::new();
    let probe = Some(CompilerTool { path: String::from("/usr/bin/clang"), like_clang: true });
    let text = b.render_build_config(TARGET, &probe);
    assert!(text.contains("  conf.toolchain :clang\n"));
    assert!(text.contains("  conf.cc.command = '/usr/bin/clang'\n"));
}

#[test]
fn dialect_classification_follows_probe_and_target() {
    let gcc_like = Some(CompilerTool { path: String::from("/usr/bin/cc"), like_clang: false });
    let clang_like = Some(CompilerTool { path: String::from("/usr/bin/cc"), like_clang: true });
    assert_eq!(classify_dialect(&gcc_like, TARGET), Dialect::Gcc);
    assert_eq!(classify_dialect(&clang_like, TARGET), Dialect::Clang);
    assert_eq!(classify_dialect(&gcc_like, "aarch64-apple-darwin"), Dialect::Clang);
    assert_eq!(classify_dialect(&None, "aarch64-apple-darwin"), Dialect::Gcc);
}

#[test]
fn generate_build_config_renders_for_the_probe_it_returns() {
    let b = Build::new();
    let (probe, text) = b.generate_build_config(TARGET);
    assert!(text.starts_with("MRUBY_VERSION = '3.1.0'\n"));
    match probe {
        Some(tool) => assert!(text.contains(&format!("  conf.cc.command = '{}'\n", tool.path))),
        None => assert!(!text.contains("conf.cc.command")),
    }
}

#[test]
fn end_to_end_defaults_for_version_3_1_0() {
    let b = Build::new();
    let layout = ScratchLayout::new("/out", b.version());
    assert_eq!(layout.root, "/out/3.1.0");
    assert_eq!(layout.tmp, "/out/3.1.0/tmp");
    assert_eq!(layout.src, "/out/3.1.0/src");
    assert_eq!(
        download_url(b.version()),
        "https://github.com/mruby/mruby/archive/refs/tags/3.1.0.tar.gz"
    );
    assert_eq!(layout.archive_path(), "/out/3.1.0/tmp/src.tar.gz");
    let plan = layout.unpack_plan(b.version());
    assert_eq!(plan.rename_from, "/out/3.1.0/tmp/mruby-3.1.0");
    assert_eq!(plan.rename_to, "/out/3.1.0/src");
    let text = b.render_build_config(TARGET, &None);
    assert!(text.contains("MRUBY_VERSION = '3.1.0'\n"));
    assert!(text.contains("MRuby::CrossBuild.new('target') do |conf|\n"));
    assert!(text.contains("  conf.gembox 'default'\n"));
    assert!(text.contains("  conf.enable_test\n"));
    assert!(text.contains("  conf.enable_bintest\n"));
    assert!(!text.contains("enable_debug"));
}

#[test]
fn unpack_plan_replaces_the_source_directory() {
    let layout = ScratchLayout::new("/o", "3.2.0");
    let plan = layout.unpack_plan("3.2.0");
    assert_eq!(plan.clean_dir, layout.src);
    assert_eq!(plan.extract_to, layout.tmp);
    assert_eq!(plan.rename_from, "/o/3.2.0/tmp/mruby-3.2.0");
    assert_eq!(plan.rename_to, layout.src);
}

#[test]
fn compile_invocation_uses_the_layout() {
    let layout = ScratchLayout::new("/o", "3.1.0");
    let inv = layout.compile_invocation(&layout.config_script_path());
    assert_eq!(inv.config_env, "/o/3.1.0/build_config.rb");
    assert_eq!(inv.build_dir_env, "/o/3.1.0");
    assert_eq!(inv.install_dir_env, "/o/3.1.0/bin");
    assert_eq!(inv.work_dir, "/o/3.1.0/src");
}

#[test]
fn a_zero_exit_publishes_the_scratch_root() {
    let r = classify_build_result(true, Some(0), "/o/3.1.0");
    assert_eq!(r, Ok(String::from("/o/3.1.0")));
}

#[test]
fn a_nonzero_exit_carries_the_status() {
    let r = classify_build_result(false, Some(2), "/o/3.1.0");
    assert_eq!(r, Err(BuildError::CompilationFailed { code: Some(2) }));
    let r = classify_build_result(false, None, "/o/3.1.0");
    assert_eq!(r, Err(BuildError::CompilationFailed { code: None }));
}

#[test]
fn cargo_flags_cover_the_six_signals() {
    let lines = cargo_flag_lines("/o/3.1.0", "3.1.0");
    assert_eq!(
        lines,
        vec![
            "cargo:rustc-link-search=native=/o/3.1.0/target/lib",
            "cargo:root=/o/3.1.0/target",
            "cargo:bin=/o/3.1.0/bin",
            "cargo:mrbc=/o/3.1.0/bin/mrbc",
            "cargo:include=/o/3.1.0/target/include",
            "cargo:mruby-version=3.1.0",
        ]
    );
}

#[test]
fn rerun_lines_name_each_source_file() {
    let lines = rerun_lines(&vec![String::from("build/main.rs"), String::from("build/presym.rs")]);
    assert_eq!(
        lines,
        vec![
            "cargo:rerun-if-changed=build/main.rs",
            "cargo:rerun-if-changed=build/presym.rs",
        ]
    );
    assert_eq!(
        rerun_env_line("MRB_SRC_DEBUG_BUILD"),
        "cargo:rerun-if-env-changed=MRB_SRC_DEBUG_BUILD"
    );
}

#[test]
fn a_debug_hold_halts_before_cleanup() {
    assert_eq!(teardown_action(true), TeardownAction::HaltForInspection);
    assert_eq!(teardown_action(false), TeardownAction::RemoveTmp);
}

#[test]
fn maybe_build_only_builds_when_vendored() {
    assert!(maybe_build(false, false).is_none());
    let b = maybe_build(true, true).unwrap();
    assert!(b.enable_test);
    assert!(b.enable_bintest);
    assert!(b.enable_debug);
    assert!(b.enable_default_gembox);
    assert_eq!(b.mruby_version, "3.1.0");
    let b = maybe_build(true, false).unwrap();
    assert!(!b.enable_debug);
}

#[test]
fn binding_adapter_values_are_fixed() {
    let p = binding_params();
    assert!(p.generate_comments);
    assert_eq!(p.allowlist_file, ".*mruby.*");
    assert_eq!(p.rustified_enum, ".*");
    assert_eq!(p.blocklist, vec!["presym_name_table", "presym_length_table"]);
    assert!(p.use_core);
    assert!(p.size_t_is_usize);
    assert_eq!(link_lib_line(), "cargo:rustc-link-lib=static=mruby");
}

#[test]
fn wrapper_header_lists_the_four_fixed_headers() {
    let expected = "#define MRB_PRESYM_SCANNING 1\n\
#include \"mruby.h\"\n\
#include \"mruby/presym.h\"\n\
#include \"mruby/presym/id.h\"\n\
#include \"mruby/presym/table.h\"\n";
    assert_eq!(wrapper_h_contents(), expected);
}

#[test]
fn adapter_paths_are_derived_from_their_roots() {
    assert_eq!(
        vendored_include_args("/o/3.1.0"),
        vec!["-I/o/3.1.0/target/include", "-I/o/3.1.0/src/include"]
    );
    assert_eq!(
        presym_header_path("/o/3.1.0"),
        "/o/3.1.0/target/include/mruby/presym/table.h"
    );
    assert_eq!(presym_out_path("/out"), "/out/presym.rs");
    assert_eq!(bindings_out_path("/out"), "/out/mruby_bindings.rs");
    assert_eq!(wrapper_h_path("/out"), "/out/wrapper.h");
}

#[test]
fn decimal_rendering_is_exact() {
    assert_eq!(to_decimal(0), "0");
    assert_eq!(to_decimal(7), "7");
    assert_eq!(to_decimal(10), "10");
    assert_eq!(to_decimal(65535), "65535");
    assert_eq!(to_decimal(1204), "1204");
}

#[test]
fn prefix_and_substring_checks_match_std() {
    assert!(starts_with("static const", "static"));
    assert!(!starts_with("static", "static const"));
    assert!(starts_with("anything", ""));
    assert!(contains_sub("x86_64-apple-darwin", "apple-darwin"));
    assert!(!contains_sub("x86_64-unknown-linux-gnu", "apple-darwin"));
    assert!(contains_sub("abc", ""));
}
