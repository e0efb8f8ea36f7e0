use vstd::prelude::*;
use crate::text::{contains_sub, spec_contains};
use crate::Build;

verus! {

/// The classification of a native compiler into one of the toolchains the
/// mruby build system knows.
#[derive(Debug, Clone, Copy, PartialEq, Eq, Structural)]
pub enum Dialect {
    Clang,
    Gcc,
}

/// What a best-effort compiler probe reports: the command path and whether
/// the compiler behaves like clang.
#[derive(Debug, Clone)]
pub struct CompilerTool {
    pub path: String,
    pub like_clang: bool,
}

/// The dialect chosen for a probe result and a target triple: clang when the
/// probe reports a clang-like compiler or the triple denotes the Apple
/// desktop platform, gcc otherwise (also when no compiler was found).
pub open spec fn spec_dialect(probe: Option<CompilerTool>, target: Seq<char>) -> Dialect {
    match probe {
        Some(tool) => if tool.like_clang || spec_contains(target, "apple-darwin"@) {
            Dialect::Clang
        } else {
            Dialect::Gcc
        },
        None => Dialect::Gcc,
    }
}

/// The toolchain name written into the configuration script.
pub open spec fn spec_dialect_name(d: Dialect) -> Seq<char> {
    match d {
        Dialect::Clang => "clang"@,
        Dialect::Gcc => "gcc"@,
    }
}

/// Classify the probed compiler into a dialect.
pub fn classify_dialect(probe: &Option<CompilerTool>, target: &str) -> (d: Dialect)
    ensures
        d == spec_dialect(*probe, target@),
{
    match probe {
        Some(tool) => {
            if tool.like_clang || contains_sub(target, "apple-darwin") {
                Dialect::Clang
            } else {
                Dialect::Gcc
            }
        },
        None => Dialect::Gcc,
    }
}

/// The compiler-command line of the script, present exactly when a compiler
/// was probed.
pub open spec fn spec_cc_command_line(probe: Option<CompilerTool>) -> Seq<char> {
    match probe {
        Some(tool) => "  conf.cc.command = '"@ + tool.path@ + "'\n"@,
        None => Seq::<char>::empty(),
    }
}

/// The mandatory part of the configuration script: version, target triple,
/// the cross-build block opening, the toolchain line, the host-target line,
/// and the compiler command when one was probed.
pub open spec fn spec_config_head(b: Build, target: Seq<char>, probe: Option<CompilerTool>) -> Seq<
    char,
> {
    "MRUBY_VERSION = '"@ + b.mruby_version@ + "'\n"@ + "MRUBY_TARGET = '"@ + target + "'\n"@
        + "MRuby::CrossBuild.new('target') do |conf|\n"@ + "  conf.toolchain :"@
        + spec_dialect_name(spec_dialect(probe, target)) + "\n"@
        + "  conf.host_target = MRUBY_TARGET\n"@ + spec_cc_command_line(probe)
}

/// The conditional lines of the script, each present if and only if the
/// matching setting is on, in the fixed order bintest, test, gembox, debug.
pub open spec fn spec_config_flags(b: Build) -> Seq<char> {
    (if b.enable_bintest {
        "  conf.enable_bintest\n"@
    } else {
        Seq::<char>::empty()
    }) + (if b.enable_test {
        "  conf.enable_test\n"@
    } else {
        Seq::<char>::empty()
    }) + (if b.enable_default_gembox {
        "  conf.gembox 'default'\n"@
    } else {
        Seq::<char>::empty()
    }) + (if b.enable_debug {
        "  conf.enable_debug\n"@
    } else {
        Seq::<char>::empty()
    })
}

/// The whole configuration script for the given settings, target triple and
/// probe result.
pub open spec fn spec_config_text(b: Build, target: Seq<char>, probe: Option<CompilerTool>) -> Seq<
    char,
> {
    spec_config_head(b, target, probe) + spec_config_flags(b) + "end\n"@
}

impl Build {
    #[verifier::rlimit(100)]
    fn render_config_head(&self, target: &str, probe: &Option<CompilerTool>) -> (r: String)
        ensures
            r@ == spec_config_head(*self, target@, *probe),
    {
        let mut out = String::new();
        out.append("MRUBY_VERSION = '");
        out.append(self.mruby_version.as_str());
        out.append("'\n");
        out.append("MRUBY_TARGET = '");
        out.append(target);
        out.append("'\n");
        out.append("MRuby::CrossBuild.new('target') do |conf|\n");
        out.append("  conf.toolchain :");
        let dialect = classify_dialect(probe, target);
        match dialect {
            Dialect::Clang => out.append("clang"),
            Dialect::Gcc => out.append("gcc"),
        }
        out.append("\n");
        out.append("  conf.host_target = MRUBY_TARGET\n");
        match probe {
            Some(tool) => {
                out.append("  conf.cc.command = '");
                out.append(tool.path.as_str());
                out.append("'\n");
            },
            None => {},
        }
        proof {
            assert(out@ =~= spec_config_head(*self, target@, *probe));
        }
        out
    }

    /// Render the configuration script for these settings, the given target
    /// triple and the given probe result.
    #[verifier::rlimit(100)]
    pub fn render_build_config(&self, target: &str, probe: &Option<CompilerTool>) -> (r: String)
        ensures
            r@ == spec_config_text(*self, target@, *probe),
    {
        let mut out = self.render_config_head(target, probe);
        if self.enable_bintest {
            out.append("  conf.enable_bintest\n");
        }
        if self.enable_test {
            out.append("  conf.enable_test\n");
        }
        if self.enable_default_gembox {
            out.append("  conf.gembox 'default'\n");
        }
        if self.enable_debug {
            out.append("  conf.enable_debug\n");
        }
        proof {
            assert(out@ =~= spec_config_head(*self, target@, *probe) + spec_config_flags(*self));
        }
        out.append("end\n");
        proof {
            assert(out@ =~= spec_config_text(*self, target@, *probe));
        }
        out
    }

    /// Probe the host for a compiler and render the configuration script for
    /// it: the returned text is the script for exactly the returned probe
    /// result, whatever the probe found.
    pub fn generate_build_config(&self, target: &str) -> (r: (Option<CompilerTool>, String))
        ensures
            r.1@ == spec_config_text(*self, target@, r.0),
    {
        let probe = probe_compiler();
        let text = self.render_build_config(target, &probe);
        (probe, text)
    }
}

/// Relies on cc::Build::try_get_compiler: a best-effort probe of the host
/// environment for a C compiler. The result depends on the environment, so
/// nothing is promised of it; callers state what holds whatever came back.
#[verifier::external_body]
fn probe_compiler() -> (r: Option<CompilerTool>) {
    match cc::Build::new().try_get_compiler() {
        Ok(tool) => Some(
            CompilerTool {
                path: format!("{}", tool.path().display()),
                like_clang: tool.is_like_clang(),
            },
        ),
        Err(_) => None,
    }
}

/// With every optional setting off, the configuration script holds exactly
/// the mandatory lines and the closing line: no conditional line is present.
pub proof fn lemma_config_all_flags_off(b: Build, target: Seq<char>, probe: Option<CompilerTool>)
    requires
        !b.enable_test,
        !b.enable_bintest,
        !b.enable_debug,
        !b.enable_default_gembox,
    ensures
        spec_config_text(b, target, probe) == spec_config_head(b, target, probe) + "end\n"@,
{
    assert(spec_config_flags(b) =~= Seq::<char>::empty());
    assert(spec_config_text(b, target, probe) =~= spec_config_head(b, target, probe) + "end\n"@);
}

/// With tests and the default gembox on but bintests and debug off, the
/// script holds the test-enable line and the default-gembox line, and
/// neither the bintest line nor the debug line.
pub proof fn lemma_config_test_and_gembox(b: Build, target: Seq<char>, probe: Option<CompilerTool>)
    requires
        b.enable_test,
        !b.enable_bintest,
        b.enable_default_gembox,
        !b.enable_debug,
    ensures
        spec_config_text(b, target, probe) == spec_config_head(b, target, probe)
            + "  conf.enable_test\n"@ + "  conf.gembox 'default'\n"@ + "end\n"@,
{
    assert(spec_config_text(b, target, probe) =~= spec_config_head(b, target, probe)
        + "  conf.enable_test\n"@ + "  conf.gembox 'default'\n"@ + "end\n"@);
}

} // verus!
