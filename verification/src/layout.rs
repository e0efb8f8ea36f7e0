use vstd::prelude::*;

verus! {

/// The per-build scratch directory tree: `tmp` and `src` are siblings under
/// `root`, which is derived from the host's output directory and the version.
#[derive(Debug, Clone)]
pub struct ScratchLayout {
    pub root: String,
    pub tmp: String,
    pub src: String,
}

impl ScratchLayout {
    /// The structural invariant of the layout: `tmp` and `src` are the fixed
    /// children of `root`.
    pub open spec fn wf(&self) -> bool {
        self.tmp@ == self.root@ + "/tmp"@ && self.src@ == self.root@ + "/src"@
    }

    /// Derive the layout from the host output directory and the version.
    pub fn new(out_root: &str, version: &str) -> (r: ScratchLayout)
        ensures
            r.root@ == out_root@ + "/"@ + version@,
            r.wf(),
    {
        let mut root = out_root.to_owned();
        root.append("/");
        root.append(version);
        let mut tmp = root.clone();
        tmp.append("/tmp");
        let mut src = root.clone();
        src.append("/src");
        ScratchLayout { root, tmp, src }
    }

    /// The path the downloaded archive is written to.
    pub fn archive_path(&self) -> (r: String)
        ensures
            r@ == self.tmp@ + "/src.tar.gz"@,
    {
        let mut r = self.tmp.clone();
        r.append("/src.tar.gz");
        r
    }

    /// The path the configuration script is written to.
    pub fn config_script_path(&self) -> (r: String)
        ensures
            r@ == self.root@ + "/build_config.rb"@,
    {
        let mut r = self.root.clone();
        r.append("/build_config.rb");
        r
    }
}

/// The fixed remote location of a versioned mruby source archive.
pub fn download_url(version: &str) -> (r: String)
    ensures
        r@ == "https://github.com/mruby/mruby/archive/refs/tags/"@ + version@ + ".tar.gz"@,
{
    let mut r = String::from_str("https://github.com/mruby/mruby/archive/refs/tags/");
    r.append(version);
    r.append(".tar.gz");
    r
}

/// The steps of the unpack stage, as paths: best-effort remove `clean_dir`,
/// extract the archive under `extract_to`, then rename `rename_from` (the
/// archive's single version-named top directory) to `rename_to`.
#[derive(Debug, Clone)]
pub struct UnpackPlan {
    pub clean_dir: String,
    pub extract_to: String,
    pub rename_from: String,
    pub rename_to: String,
}

impl ScratchLayout {
    /// The unpack plan for this layout and version: the archive's top
    /// directory `mruby-<version>` under `tmp` is renamed to the canonical,
    /// version-independent `src` path, replacing what stood there.
    pub fn unpack_plan(&self, version: &str) -> (r: UnpackPlan)
        ensures
            r.clean_dir == self.src,
            r.extract_to == self.tmp,
            r.rename_from@ == self.tmp@ + "/mruby-"@ + version@,
            r.rename_to == self.src,
    {
        let mut rename_from = self.tmp.clone();
        rename_from.append("/mruby-");
        rename_from.append(version);
        UnpackPlan {
            clean_dir: self.src.clone(),
            extract_to: self.tmp.clone(),
            rename_from,
            rename_to: self.src.clone(),
        }
    }
}

/// A directory tree rooted at the canonical source path, as a map from
/// relative paths to file contents.
pub ghost struct SrcTree {
    pub files: Map<Seq<char>, Seq<u8>>,
}

/// An extracted source archive: its single top-level directory name and the
/// files under it.
pub ghost struct ArchiveTree {
    pub top_dir: Seq<char>,
    pub files: Map<Seq<char>, Seq<u8>>,
}

/// The effect of the unpack stage on the canonical source directory:
/// whatever stood there before (even nothing), afterwards it holds exactly
/// the archive's files.
pub open spec fn unpack_effect(prior: Option<SrcTree>, archive: ArchiveTree) -> Option<SrcTree> {
    Some(SrcTree { files: archive.files })
}

/// Unpacking is idempotent in effect: the source directory is replaced, not
/// merged, so running the unpack stage twice against the same archive leaves
/// it in the same final state as running it once, whatever stood there
/// before either run.
pub proof fn lemma_unpack_idempotent(prior: Option<SrcTree>, archive: ArchiveTree)
    ensures
        unpack_effect(unpack_effect(prior, archive), archive) == unpack_effect(prior, archive),
        forall|other: Option<SrcTree>| #[trigger] unpack_effect(other, archive) == unpack_effect(
            prior,
            archive,
        ),
{
}

/// How the external native build system is invoked: the three environment
/// values handed to it and the directory it runs in.
#[derive(Debug, Clone)]
pub struct CompileInvocation {
    pub config_env: String,
    pub build_dir_env: String,
    pub install_dir_env: String,
    pub work_dir: String,
}

impl ScratchLayout {
    /// The invocation of the native build for this layout: configuration
    /// script path, build root, install directory under it, run inside the
    /// unpacked source tree.
    pub fn compile_invocation(&self, config_script: &str) -> (r: CompileInvocation)
        ensures
            r.config_env@ == config_script@,
            r.build_dir_env == self.root,
            r.install_dir_env@ == self.root@ + "/bin"@,
            r.work_dir == self.src,
    {
        let mut install = self.root.clone();
        install.append("/bin");
        CompileInvocation {
            config_env: config_script.to_owned(),
            build_dir_env: self.root.clone(),
            install_dir_env: install,
            work_dir: self.src.clone(),
        }
    }
}

/// A failure of the build pipeline.
#[derive(Debug, Clone, PartialEq, Eq)]
pub enum BuildError {
    /// The native build subprocess exited with a nonzero status; the raw
    /// status code is carried, and nothing else, since the subprocess's own
    /// streams already showed the detail live.
    CompilationFailed { code: Option<i32> },
}

/// Classify the native build subprocess result: a zero exit status yields
/// the scratch root as the artifact root; a nonzero one yields a failure
/// carrying the raw status code and nothing is published.
pub fn classify_build_result(success: bool, code: Option<i32>, build_dir: &str) -> (r: Result<
    String,
    BuildError,
>)
    ensures
        success ==> (r matches Ok(d) && d@ == build_dir@),
        !success ==> r == Err::<String, BuildError>(BuildError::CompilationFailed { code }),
{
    if success {
        Ok(build_dir.to_owned())
    } else {
        Err(BuildError::CompilationFailed { code })
    }
}

/// The six declarative key/value signal lines published after a successful
/// build, for the artifact root `dist_dir`: link search path, artifact root,
/// binary directory, the mrbc tool path, the include directory, and the
/// library version.
pub fn cargo_flag_lines(dist_dir: &str, version: &str) -> (r: Vec<String>)
    ensures
        r@.len() == 6,
        r@[0]@ == "cargo:rustc-link-search=native="@ + dist_dir@ + "/target/lib"@,
        r@[1]@ == "cargo:root="@ + dist_dir@ + "/target"@,
        r@[2]@ == "cargo:bin="@ + dist_dir@ + "/bin"@,
        r@[3]@ == "cargo:mrbc="@ + dist_dir@ + "/bin/mrbc"@,
        r@[4]@ == "cargo:include="@ + dist_dir@ + "/target/include"@,
        r@[5]@ == "cargo:mruby-version="@ + version@,
{
    let mut r: Vec<String> = Vec::new();
    let mut line = String::from_str("cargo:rustc-link-search=native=");
    line.append(dist_dir);
    line.append("/target/lib");
    r.push(line);
    let mut line = String::from_str("cargo:root=");
    line.append(dist_dir);
    line.append("/target");
    r.push(line);
    let mut line = String::from_str("cargo:bin=");
    line.append(dist_dir);
    line.append("/bin");
    r.push(line);
    let mut line = String::from_str("cargo:mrbc=");
    line.append(dist_dir);
    line.append("/bin/mrbc");
    r.push(line);
    let mut line = String::from_str("cargo:include=");
    line.append(dist_dir);
    line.append("/target/include");
    r.push(line);
    let mut line = String::from_str("cargo:mruby-version=");
    line.append(version);
    r.push(line);
    r
}

/// The lines that register the build-script sources with the host build
/// tool, one for each file handed in.
pub fn rerun_lines(paths: &Vec<String>) -> (r: Vec<String>)
    ensures
        r@.len() == paths@.len(),
        forall|i: int|
            0 <= i < r@.len() ==> r@[i]@ == "cargo:rerun-if-changed="@ + paths@[i]@,
{
    let mut r: Vec<String> = Vec::new();
    let mut i: usize = 0;
    while i < paths.len()
        invariant
            i <= paths@.len(),
            r@.len() == i,
            forall|j: int|
                0 <= j < i ==> r@[j]@ == "cargo:rerun-if-changed="@ + paths@[j]@,
        decreases paths@.len() - i,
    {
        let mut line = String::from_str("cargo:rerun-if-changed=");
        line.append(paths[i].as_str());
        r.push(line);
        i += 1;
    }
    r
}

/// The line that registers a debug-hold environment variable with the host
/// build tool.
pub fn rerun_env_line(var: &str) -> (r: String)
    ensures
        r@ == "cargo:rerun-if-env-changed="@ + var@,
{
    let mut r = String::from_str("cargo:rerun-if-env-changed=");
    r.append(var);
    r
}

/// What the end of a build does: halt the process before cleanup so the
/// scratch state stays inspectable, or remove the temporary directory.
#[derive(Debug, Clone, Copy, PartialEq, Eq, Structural)]
pub enum TeardownAction {
    HaltForInspection,
    RemoveTmp,
}

/// Decide the teardown step: a debug-hold signal in the environment halts
/// the process before any cleanup; otherwise the temporary directory is
/// removed.
pub fn teardown_action(debug_hold: bool) -> (r: TeardownAction)
    ensures
        r == if debug_hold {
            TeardownAction::HaltForInspection
        } else {
            TeardownAction::RemoveTmp
        },
{
    if debug_hold {
        TeardownAction::HaltForInspection
    } else {
        TeardownAction::RemoveTmp
    }
}

} // verus!
