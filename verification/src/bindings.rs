use vstd::prelude::*;
use crate::Build;

verus! {

/// The settings for a vendored build driven from the binding generation
/// step, or nothing when no vendored build is wanted: tests and bintests on,
/// debug following the caller's own build kind.
pub fn maybe_build(vendored: bool, debug: bool) -> (r: Option<Build>)
    ensures
        vendored ==> (r matches Some(b) && b.enable_test && b.enable_bintest && b.enable_debug
            == debug && b.enable_default_gembox && b.mruby_version@ == "3.1.0"@),
        !vendored ==> r is None,
{
    if vendored {
        let mut b = Build::new();
        b.enable_debug(debug);
        b.enable_test(true);
        b.enable_bintest(true);
        Some(b)
    } else {
        None
    }
}

/// The umbrella header handed to the binding generator: the presym-scanning
/// gate and the four fixed mruby headers, in the order they must be read.
pub fn wrapper_h_contents() -> (r: String)
    ensures
        r@ == "#define MRB_PRESYM_SCANNING 1\n"@ + "#include \"mruby.h\"\n"@
            + "#include \"mruby/presym.h\"\n"@ + "#include \"mruby/presym/id.h\"\n"@
            + "#include \"mruby/presym/table.h\"\n"@,
{
    let mut r = String::from_str("#define MRB_PRESYM_SCANNING 1\n");
    r.append("#include \"mruby.h\"\n");
    r.append("#include \"mruby/presym.h\"\n");
    r.append("#include \"mruby/presym/id.h\"\n");
    r.append("#include \"mruby/presym/table.h\"\n");
    r
}

/// How the external binding generator is configured: comments kept, the
/// allow-list restricted to the library's files, the two presym table
/// symbols denied (the transpiler regenerates them), enums rewritten to the
/// closed tagged-variant style, and the fixed-width size type mapping.
#[derive(Debug, Clone)]
pub struct BindingParams {
    pub generate_comments: bool,
    pub allowlist_file: String,
    pub rustified_enum: String,
    pub blocklist: Vec<String>,
    pub use_core: bool,
    pub size_t_is_usize: bool,
}

/// The fixed binding-generator configuration.
pub fn binding_params() -> (r: BindingParams)
    ensures
        r.generate_comments,
        r.allowlist_file@ == ".*mruby.*"@,
        r.rustified_enum@ == ".*"@,
        r.blocklist@.len() == 2,
        r.blocklist@[0]@ == "presym_name_table"@,
        r.blocklist@[1]@ == "presym_length_table"@,
        r.use_core,
        r.size_t_is_usize,
{
    let mut blocklist: Vec<String> = Vec::new();
    blocklist.push(String::from_str("presym_name_table"));
    blocklist.push(String::from_str("presym_length_table"));
    BindingParams {
        generate_comments: true,
        allowlist_file: String::from_str(".*mruby.*"),
        rustified_enum: String::from_str(".*"),
        blocklist,
        use_core: true,
        size_t_is_usize: true,
    }
}

/// The two include roots of a freshly built source tree, as search-path
/// arguments for the binding generator.
pub fn vendored_include_args(vendored_root: &str) -> (r: Vec<String>)
    ensures
        r@.len() == 2,
        r@[0]@ == "-I"@ + vendored_root@ + "/target/include"@,
        r@[1]@ == "-I"@ + vendored_root@ + "/src/include"@,
{
    let mut r: Vec<String> = Vec::new();
    let mut a = String::from_str("-I");
    a.append(vendored_root);
    a.append("/target/include");
    r.push(a);
    let mut b = String::from_str("-I");
    b.append(vendored_root);
    b.append("/src/include");
    r.push(b);
    r
}

/// The path of the generated presym table header inside a built source tree.
pub fn presym_header_path(vendored_root: &str) -> (r: String)
    ensures
        r@ == vendored_root@ + "/target/include/mruby/presym/table.h"@,
{
    let mut r = vendored_root.to_owned();
    r.append("/target/include/mruby/presym/table.h");
    r
}

/// The path the transpiled presym table is written to.
pub fn presym_out_path(out_dir: &str) -> (r: String)
    ensures
        r@ == out_dir@ + "/presym.rs"@,
{
    let mut r = out_dir.to_owned();
    r.append("/presym.rs");
    r
}

/// The path the generated bindings are written to.
pub fn bindings_out_path(out_dir: &str) -> (r: String)
    ensures
        r@ == out_dir@ + "/mruby_bindings.rs"@,
{
    let mut r = out_dir.to_owned();
    r.append("/mruby_bindings.rs");
    r
}

/// The path the umbrella header is written to.
pub fn wrapper_h_path(out_dir: &str) -> (r: String)
    ensures
        r@ == out_dir@ + "/wrapper.h"@,
{
    let mut r = out_dir.to_owned();
    r.append("/wrapper.h");
    r
}

/// The signal line that links the built static library.
pub fn link_lib_line() -> (r: String)
    ensures
        r@ == "cargo:rustc-link-lib=static=mruby"@,
{
    String::from_str("cargo:rustc-link-lib=static=mruby")
}

} // verus!
