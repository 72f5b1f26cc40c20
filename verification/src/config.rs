use crate::paths::{join, join_spec, parent_of, path_parent};
use crate::text::strings_view;
use vstd::prelude::*;

verus! {

/// The name of the project file that holds a [`FuzixConfig`].
pub const CONFIG_FILE_NAME: &'static str = "fuzix.toml";

/// The `[project]` table.
#[derive(Debug, Clone)]
pub struct ProjectConfig {
    pub name: String,
    pub version: String,
    pub source: String,
}

/// The `[target]` table: the CPU to build for, the emulator to run on and the
/// number of seconds an emulator session may last.
#[derive(Debug, Clone)]
pub struct TargetConfig {
    pub cpu: String,
    pub emulator: String,
    pub timeout: u64,
}

/// The `[disk]` table: where the boot and root disk images live.
#[derive(Debug, Clone)]
pub struct DiskConfig {
    pub boot_image: String,
    pub root_image: String,
}

/// The `[toolchain]` table: the release repository and tag of the prebuilt
/// toolchain.
#[derive(Debug, Clone)]
pub struct ToolchainConfig {
    pub repo: String,
    pub release: String,
}

/// A whole project configuration, as stored in `fuzix.toml`.
#[derive(Debug, Clone)]
pub struct FuzixConfig {
    pub project: ProjectConfig,
    pub target: TargetConfig,
    pub disk: DiskConfig,
    pub toolchain: ToolchainConfig,
}

/// The version a project gets when none is given.
pub fn default_version() -> (s: String)
    ensures
        s@ == "0.1.0"@,
{
    String::from_str("0.1.0")
}

/// The source file a project gets when none is given.
pub fn default_source() -> (s: String)
    ensures
        s@ == "hello.c"@,
{
    String::from_str("hello.c")
}

/// The CPU a target gets when none is given.
pub fn default_cpu() -> (s: String)
    ensures
        s@ == "68000"@,
{
    String::from_str("68000")
}

/// The emulator a target gets when none is given.
pub fn default_emulator() -> (s: String)
    ensures
        s@ == "v68"@,
{
    String::from_str("v68")
}

/// The session timeout, in seconds, a target gets when none is given.
pub fn default_timeout() -> (t: u64)
    ensures
        t == 45,
{
    45
}

/// The boot image path a project gets when none is given.
pub fn default_boot_image() -> (s: String)
    ensures
        s@ == ".fuzix/images/boot.dsk"@,
{
    String::from_str(".fuzix/images/boot.dsk")
}

/// The root image path a project gets when none is given.
pub fn default_root_image() -> (s: String)
    ensures
        s@ == ".fuzix/images/hd-fuzix.dsk"@,
{
    String::from_str(".fuzix/images/hd-fuzix.dsk")
}

/// The release repository a project gets when none is given.
pub fn default_repo() -> (s: String)
    ensures
        s@ == "notKitory/fuzix-sh"@,
{
    String::from_str("notKitory/fuzix-sh")
}

/// The release tag a project gets when none is given.
pub fn default_release() -> (s: String)
    ensures
        s@ == "latest"@,
{
    String::from_str("latest")
}

impl DiskConfig {
    /// Both image paths hold their default values.
    pub open spec fn is_default(&self) -> bool {
        &&& self.boot_image@ == ".fuzix/images/boot.dsk"@
        &&& self.root_image@ == ".fuzix/images/hd-fuzix.dsk"@
    }
}

impl ToolchainConfig {
    /// Repository and release hold their default values.
    pub open spec fn is_default(&self) -> bool {
        &&& self.repo@ == "notKitory/fuzix-sh"@
        &&& self.release@ == "latest"@
    }
}

impl FuzixConfig {
    /// Every field holds the value of a freshly made project called `fuzix-app`.
    pub open spec fn is_default(&self) -> bool {
        &&& self.project.name@ == "fuzix-app"@
        &&& self.project.version@ == "0.1.0"@
        &&& self.project.source@ == "hello.c"@
        &&& self.target.cpu@ == "68000"@
        &&& self.target.emulator@ == "v68"@
        &&& self.target.timeout == 45
        &&& self.disk.is_default()
        &&& self.toolchain.is_default()
    }
}

impl Default for DiskConfig {
    fn default() -> (r: Self)
        ensures
            r.is_default(),
    {
        DiskConfig { boot_image: default_boot_image(), root_image: default_root_image() }
    }
}

impl Default for ToolchainConfig {
    fn default() -> (r: Self)
        ensures
            r.is_default(),
    {
        ToolchainConfig { repo: default_repo(), release: default_release() }
    }
}

impl Default for FuzixConfig {
    fn default() -> (r: Self)
        ensures
            r.is_default(),
    {
        FuzixConfig {
            project: ProjectConfig {
                name: String::from_str("fuzix-app"),
                version: default_version(),
                source: default_source(),
            },
            target: TargetConfig {
                cpu: default_cpu(),
                emulator: default_emulator(),
                timeout: default_timeout(),
            },
            disk: DiskConfig::default(),
            toolchain: ToolchainConfig::default(),
        }
    }
}

impl FuzixConfig {
    /// The configuration to work with, given what the search for `fuzix.toml`
    /// found: the file's path and contents when it found and read one, and the
    /// defaults (with no path) when it found none or could not read or parse it.
    pub fn load_or_default(found: Result<Option<(String, FuzixConfig)>, String>) -> (r: (
        Option<String>,
        FuzixConfig,
    ))
        ensures
            match found {
                Ok(Some((path, config))) => r.0 == Some(path) && r.1 == config,
                _ => r.0.is_none() && r.1.is_default(),
            },
    {
        match found {
            Ok(Some((path, config))) => (Some(path), config),
            _ => (None, FuzixConfig::default()),
        }
    }
}

/// The places searched for the project file, nearest first: `fuzix.toml` in
/// the directory `dir`, then in each directory above it as `Path::parent`
/// gives them, up to the top. `fuel` bounds the climb; it never cuts it short
/// when it is at least the length of `dir`, since every parent is shorter than
/// its path.
pub open spec fn config_candidates_spec(dir: Seq<char>, fuel: nat) -> Seq<Seq<char>>
    decreases fuel,
{
    seq![join_spec(dir, CONFIG_FILE_NAME@)] + if fuel == 0 {
        Seq::empty()
    } else {
        match path_parent(dir) {
            Some(up) => config_candidates_spec(up, (fuel - 1) as nat),
            None => Seq::empty(),
        }
    }
}

/// The places searched for the project file when the search starts in the
/// directory `start`, nearest first (see [`config_candidates_spec`]).
pub fn config_candidates(start: &str) -> (r: Vec<String>)
    ensures
        strings_view(r@) == config_candidates_spec(start@, start@.len()),
{
    let mut r: Vec<String> = Vec::new();
    let mut cur = String::from_str(start);
    let ghost mut fuel: nat = start@.len();
    assert(strings_view(r@) =~= Seq::<Seq<char>>::empty());
    assert(Seq::<Seq<char>>::empty() + config_candidates_spec(cur@, fuel) =~= config_candidates_spec(
        start@,
        start@.len(),
    ));
    loop
        invariant_except_break
            fuel >= cur@.len(),
            strings_view(r@) + config_candidates_spec(cur@, fuel) == config_candidates_spec(
                start@,
                start@.len(),
            ),
        ensures
            strings_view(r@) == config_candidates_spec(start@, start@.len()),
        decreases cur@.len(),
    {
        let here = join(cur.as_str(), CONFIG_FILE_NAME);
        let ghost before = strings_view(r@);
        r.push(here);
        assert(strings_view(r@) =~= before.push(join_spec(cur@, CONFIG_FILE_NAME@)));
        match parent_of(cur.as_str()) {
            Some(up) => {
                proof {
                    assert(fuel > 0);
                    assert(config_candidates_spec(cur@, fuel) == seq![join_spec(cur@, CONFIG_FILE_NAME@)]
                        + config_candidates_spec(up@, (fuel - 1) as nat));
                    assert(before.push(join_spec(cur@, CONFIG_FILE_NAME@)) + config_candidates_spec(
                        up@,
                        (fuel - 1) as nat,
                    ) =~= before + (seq![join_spec(cur@, CONFIG_FILE_NAME@)] + config_candidates_spec(
                        up@,
                        (fuel - 1) as nat,
                    )));
                    fuel = (fuel - 1) as nat;
                }
                cur = up;
            },
            None => {
                proof {
                    if fuel > 0 {
                        assert(config_candidates_spec(cur@, fuel) == seq![join_spec(cur@, CONFIG_FILE_NAME@)]
                            + Seq::<Seq<char>>::empty());
                    }
                    assert(config_candidates_spec(cur@, fuel) =~= seq![join_spec(cur@, CONFIG_FILE_NAME@)]);
                    assert(before + seq![join_spec(cur@, CONFIG_FILE_NAME@)] =~= before.push(
                        join_spec(cur@, CONFIG_FILE_NAME@),
                    ));
                }
                break;
            },
        }
    }
    r
}

} // verus!
