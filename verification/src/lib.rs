use vstd::prelude::*;

pub mod bindings;
pub mod config;
pub mod layout;
pub mod presym;
pub mod text;

verus! {

/// Settings for building the mruby library from source.
///
/// A value is put together before the pipeline starts and read, never
/// changed, once a build is under way.
#[derive(Debug, Clone)]
pub struct Build {
    pub enable_test: bool,
    pub enable_bintest: bool,
    pub enable_debug: bool,
    pub enable_default_gembox: bool,
    pub mruby_version: String,
}

impl Build {
    /// Create a new build with the default settings.
    pub fn new() -> (r: Build)
        ensures
            r.enable_test,
            r.enable_bintest,
            !r.enable_debug,
            r.enable_default_gembox,
            r.mruby_version@ == "3.1.0"@,
    {
        Build {
            enable_test: true,
            enable_bintest: true,
            enable_debug: false,
            enable_default_gembox: true,
            mruby_version: String::from_str("3.1.0"),
        }
    }

    /// Enable or disable the test suite.
    pub fn enable_test(&mut self, enabled: bool)
        ensures
            final(self).enable_test == enabled,
            final(self).enable_bintest == old(self).enable_bintest,
            final(self).enable_debug == old(self).enable_debug,
            final(self).enable_default_gembox == old(self).enable_default_gembox,
            final(self).mruby_version == old(self).mruby_version,
    {
        self.enable_test = enabled;
    }

    /// Enable or disable the bintests.
    pub fn enable_bintest(&mut self, enabled: bool)
        ensures
            final(self).enable_bintest == enabled,
            final(self).enable_test == old(self).enable_test,
            final(self).enable_debug == old(self).enable_debug,
            final(self).enable_default_gembox == old(self).enable_default_gembox,
            final(self).mruby_version == old(self).mruby_version,
    {
        self.enable_bintest = enabled;
    }

    /// Enable or disable a debug build.
    pub fn enable_debug(&mut self, enabled: bool)
        ensures
            final(self).enable_debug == enabled,
            final(self).enable_test == old(self).enable_test,
            final(self).enable_bintest == old(self).enable_bintest,
            final(self).enable_default_gembox == old(self).enable_default_gembox,
            final(self).mruby_version == old(self).mruby_version,
    {
        self.enable_debug = enabled;
    }

    /// Enable or disable the default gembox.
    pub fn enable_default_gembox(&mut self, enabled: bool)
        ensures
            final(self).enable_default_gembox == enabled,
            final(self).enable_test == old(self).enable_test,
            final(self).enable_bintest == old(self).enable_bintest,
            final(self).enable_debug == old(self).enable_debug,
            final(self).mruby_version == old(self).mruby_version,
    {
        self.enable_default_gembox = enabled;
    }

    /// Set the mruby version.
    pub fn mruby_version(&mut self, version: &str)
        ensures
            final(self).mruby_version@ == version@,
            final(self).enable_test == old(self).enable_test,
            final(self).enable_bintest == old(self).enable_bintest,
            final(self).enable_debug == old(self).enable_debug,
            final(self).enable_default_gembox == old(self).enable_default_gembox,
    {
        self.mruby_version = version.to_owned();
    }

    /// The mruby version this build targets.
    pub fn version(&self) -> (r: &String)
        ensures
            r == &self.mruby_version,
    {
        &self.mruby_version
    }
}

impl Default for Build {
    /// The default build: the same settings as `Build::new`.
    fn default() -> (r: Build)
        ensures
            r.enable_test,
            r.enable_bintest,
            !r.enable_debug,
            r.enable_default_gembox,
            r.mruby_version@ == "3.1.0"@,
    {
        Build::new()
    }
}

} // verus!
