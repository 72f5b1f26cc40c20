use crate::archive::{entries_view, tar_gz_entries, tar_gz_entries_spec};
use crate::paths::{join, join_spec};
use crate::text::{concat2, concat3, str_eq};
use vstd::prelude::*;

verus! {

/// Why a toolchain manager could not be set up.
#[derive(Debug, Clone, PartialEq, Eq)]
pub enum ToolchainError {
    /// No prebuilt toolchain exists for this operating system and processor.
    UnsupportedHost { os: String, arch: String },
    /// The user's home directory could not be determined.
    NoHomeDirectory,
}

impl ToolchainError {
    /// The error says that no toolchain is built for `os`/`arch`.
    pub open spec fn is_unsupported_host(&self, os: Seq<char>, arch: Seq<char>) -> bool {
        match self {
            ToolchainError::UnsupportedHost { os: o, arch: a } => o@ == os && a@ == arch,
            _ => false,
        }
    }
}

/// The name of the prebuilt toolchain for a host, from the operating system
/// and processor names Rust gives it.
pub open spec fn host_target(os: Seq<char>, arch: Seq<char>) -> Option<Seq<char>> {
    if os == "macos"@ && arch == "aarch64"@ {
        Some("darwin-arm64"@)
    } else if os == "macos"@ && arch == "x86_64"@ {
        Some("darwin-x86_64"@)
    } else if os == "linux"@ && arch == "x86_64"@ {
        Some("linux-amd64"@)
    } else if os == "linux"@ && arch == "aarch64"@ {
        Some("linux-arm64"@)
    } else if os == "windows"@ && arch == "x86_64"@ {
        Some("windows-amd64"@)
    } else {
        None
    }
}

/// The prebuilt toolchain for the host whose operating system and processor
/// are `os` and `arch`, or an error naming them when none is built for it.
pub fn detect_host_arch(os: &str, arch: &str) -> (r: Result<String, ToolchainError>)
    ensures
        match host_target(os@, arch@) {
            Some(t) => r is Ok && r->Ok_0@ == t,
            None => r is Err && r->Err_0.is_unsupported_host(os@, arch@),
        },
{
    let macos = str_eq(os, "macos");
    let linux = str_eq(os, "linux");
    let windows = str_eq(os, "windows");
    let aarch64 = str_eq(arch, "aarch64");
    let x86_64 = str_eq(arch, "x86_64");
    if macos && aarch64 {
        Ok(String::from_str("darwin-arm64"))
    } else if macos && x86_64 {
        Ok(String::from_str("darwin-x86_64"))
    } else if linux && x86_64 {
        Ok(String::from_str("linux-amd64"))
    } else if linux && aarch64 {
        Ok(String::from_str("linux-arm64"))
    } else if windows && x86_64 {
        Ok(String::from_str("windows-amd64"))
    } else {
        Err(ToolchainError::UnsupportedHost { os: String::from_str(os), arch: String::from_str(arch) })
    }
}

/// The current user's home directory, as `dirs::home_dir` finds it. It comes
/// from the environment and the user database, so nothing is stated of it.
#[verifier::external_body]
fn home_dir() -> (r: Option<String>) {
    match dirs::home_dir() {
        Some(p) => Some(p.to_string_lossy().into_owned()),
        None => None,
    }
}

/// Where the toolchain, runtime and emulators of one host are installed, and
/// the release they come from.
#[derive(Debug, Clone)]
pub struct ToolchainManager {
    pub base_dir: String,
    pub arch: String,
    pub repo: String,
    pub release: String,
}

impl ToolchainManager {
    /// A manager for the host `os`/`arch`, installed under `.fuzix` in the home
    /// directory `home`; the host is checked before the home directory.
    pub fn from_parts(repo: &str, release: &str, os: &str, arch: &str, home: Option<String>) -> (r:
        Result<Self, ToolchainError>)
        ensures
            match host_target(os@, arch@) {
                None => r is Err && r->Err_0.is_unsupported_host(os@, arch@),
                Some(t) => match home {
                    None => r == Err::<Self, ToolchainError>(ToolchainError::NoHomeDirectory),
                    Some(h) => r is Ok && r->Ok_0.base_dir@ == join_spec(h@, ".fuzix"@)
                        && r->Ok_0.arch@ == t && r->Ok_0.repo@ == repo@ && r->Ok_0.release@
                        == release@,
                },
            },
    {
        let arch = match detect_host_arch(os, arch) {
            Ok(a) => a,
            Err(e) => return Err(e),
        };
        match home {
            None => Err(ToolchainError::NoHomeDirectory),
            Some(h) => Ok(
                ToolchainManager {
                    base_dir: join(h.as_str(), ".fuzix"),
                    arch,
                    repo: String::from_str(repo),
                    release: String::from_str(release),
                },
            ),
        }
    }

    /// A manager for the host `os`/`arch`, installed under `.fuzix` in the
    /// current user's home directory.
    pub fn new(repo: &str, release: &str, os: &str, arch: &str) -> (r: Result<Self, ToolchainError>)
        ensures
            match host_target(os@, arch@) {
                None => r is Err && r->Err_0.is_unsupported_host(os@, arch@),
                Some(t) => r == Err::<Self, ToolchainError>(ToolchainError::NoHomeDirectory) || (
                r is Ok && (exists|h: Seq<char>| r->Ok_0.base_dir@ == join_spec(h, ".fuzix"@))
                    && r->Ok_0.arch@ == t && r->Ok_0.repo@ == repo@ && r->Ok_0.release@
                    == release@),
            },
    {
        match detect_host_arch(os, arch) {
            Ok(_) => {},
            Err(e) => return Err(e),
        }
        let home = home_dir();
        Self::from_parts(repo, release, os, arch, home)
    }

    /// `<base>/toolchain/<arch>`
    pub open spec fn toolchain_dir_spec(&self) -> Seq<char> {
        join_spec(join_spec(self.base_dir@, "toolchain"@), self.arch@)
    }

    /// `<base>/runtime`
    pub open spec fn runtime_dir_spec(&self) -> Seq<char> {
        join_spec(self.base_dir@, "runtime"@)
    }

    /// `<base>/emulators/<arch>`
    pub open spec fn emulators_dir_spec(&self) -> Seq<char> {
        join_spec(join_spec(self.base_dir@, "emulators"@), self.arch@)
    }

    /// The directory of the compiler toolchain for this host.
    pub fn toolchain_dir(&self) -> (r: String)
        ensures
            r@ == self.toolchain_dir_spec(),
    {
        let d = join(self.base_dir.as_str(), "toolchain");
        join(d.as_str(), self.arch.as_str())
    }

    /// The directory of the FUZIX runtime (headers, libraries, tools, images).
    pub fn runtime_dir(&self) -> (r: String)
        ensures
            r@ == self.runtime_dir_spec(),
    {
        join(self.base_dir.as_str(), "runtime")
    }

    /// The directory of the emulators for this host.
    pub fn emulators_dir(&self) -> (r: String)
        ensures
            r@ == self.emulators_dir_spec(),
    {
        let d = join(self.base_dir.as_str(), "emulators");
        join(d.as_str(), self.arch.as_str())
    }

    /// The `fcc` compiler driver.
    pub fn fcc_binary(&self) -> (r: String)
        ensures
            r@ == join_spec(join_spec(self.toolchain_dir_spec(), "bin"@), "fcc"@),
    {
        let d = self.toolchain_dir();
        let b = join(d.as_str(), "bin");
        join(b.as_str(), "fcc")
    }

    /// The `ucp` disk-image tool.
    pub fn ucp_binary(&self) -> (r: String)
        ensures
            r@ == join_spec(self.runtime_dir_spec(), "ucp"@),
    {
        let d = self.runtime_dir();
        join(d.as_str(), "ucp")
    }

    /// The binary of the emulator called `name`.
    pub fn emulator_binary(&self, name: &str) -> (r: String)
        ensures
            r@ == join_spec(self.emulators_dir_spec(), name@),
    {
        let d = self.emulators_dir();
        join(d.as_str(), name)
    }

    /// The boot data file of the 68000 emulators.
    pub fn boot_dat_path(&self) -> (r: String)
        ensures
            r@ == join_spec(self.emulators_dir_spec(), "boot.dat"@),
    {
        let d = self.emulators_dir();
        join(d.as_str(), "boot.dat")
    }

    /// The file whose presence records a finished installation for this host.
    pub fn completion_marker(&self) -> (r: String)
        ensures
            r@ == join_spec(self.base_dir@, ".complete_"@ + self.arch@),
    {
        let name = concat2(".complete_", self.arch.as_str());
        join(self.base_dir.as_str(), name.as_str())
    }

    /// The release archives an installation unpacks, each with the directory it
    /// is unpacked into, in the order they are fetched.
    pub fn install_assets(&self) -> (r: Vec<(String, String)>)
        ensures
            r@.map_values(|p: (String, String)| (p.0@, p.1@)) == seq![
                ("fuzix-toolchain-"@ + self.arch@ + ".tar.gz"@, self.toolchain_dir_spec()),
                ("fuzix-runtime-"@ + self.arch@ + ".tar.gz"@, self.runtime_dir_spec()),
                ("emulatorkit-runtime-"@ + self.arch@ + ".tar.gz"@, self.emulators_dir_spec()),
                ("z80pack-runtime-"@ + self.arch@ + ".tar.gz"@, self.emulators_dir_spec()),
            ],
    {
        let arch = self.arch.as_str();
        let mut r: Vec<(String, String)> = Vec::new();
        r.push((concat3("fuzix-toolchain-", arch, ".tar.gz"), self.toolchain_dir()));
        r.push((concat3("fuzix-runtime-", arch, ".tar.gz"), self.runtime_dir()));
        r.push((concat3("emulatorkit-runtime-", arch, ".tar.gz"), self.emulators_dir()));
        r.push((concat3("z80pack-runtime-", arch, ".tar.gz"), self.emulators_dir()));
        assert(r@.map_values(|p: (String, String)| (p.0@, p.1@)) =~= seq![
            ("fuzix-toolchain-"@ + self.arch@ + ".tar.gz"@, self.toolchain_dir_spec()),
            ("fuzix-runtime-"@ + self.arch@ + ".tar.gz"@, self.runtime_dir_spec()),
            ("emulatorkit-runtime-"@ + self.arch@ + ".tar.gz"@, self.emulators_dir_spec()),
            ("z80pack-runtime-"@ + self.arch@ + ".tar.gz"@, self.emulators_dir_spec()),
        ]);
        r
    }

    /// Whether the configured release is the moving `latest` one.
    pub open spec fn is_latest(&self) -> bool {
        self.release@ == "latest"@
    }

    /// The URL of the release archive `asset`.
    pub fn asset_url(&self, asset: &str) -> (r: String)
        ensures
            r@ == if self.is_latest() {
                "https://github.com/"@ + self.repo@ + "/releases/latest/download/"@ + asset@
            } else {
                "https://github.com/"@ + self.repo@ + "/releases/download/"@ + self.release@
                    + "/"@ + asset@
            },
    {
        let mut r = concat2("https://github.com/", self.repo.as_str());
        if str_eq(self.release.as_str(), "latest") {
            r.append("/releases/latest/download/");
        } else {
            r.append("/releases/download/");
            r.append(self.release.as_str());
            r.append("/");
        }
        r.append(asset);
        r
    }

    /// The release tag that holds the boot data: the prebuilt tag for `latest`,
    /// the configured release otherwise.
    pub fn boot_dat_tag(&self) -> (r: String)
        ensures
            r@ == if self.is_latest() {
                "prebuilt-latest"@
            } else {
                self.release@
            },
    {
        if str_eq(self.release.as_str(), "latest") {
            String::from_str("prebuilt-latest")
        } else {
            self.release.clone()
        }
    }

    /// The URL of the boot data file of the release.
    pub fn boot_dat_url(&self) -> (r: String)
        ensures
            r@ == "https://github.com/"@ + self.repo@ + "/releases/download/"@ + (if self.is_latest() {
                "prebuilt-latest"@
            } else {
                self.release@
            }) + "/boot.dat"@,
    {
        let mut r = concat3("https://github.com/", self.repo.as_str(), "/releases/download/");
        let tag = self.boot_dat_tag();
        r.append(tag.as_str());
        r.append("/boot.dat");
        r
    }

    /// The URL of the Linux emulator archive of the release, which also holds
    /// the boot data file.
    pub fn boot_dat_archive_url(&self) -> (r: String)
        ensures
            r@ == "https://github.com/"@ + self.repo@ + "/releases/download/"@ + (if self.is_latest() {
                "prebuilt-latest"@
            } else {
                self.release@
            }) + "/emulatorkit-runtime-linux-amd64.tar.gz"@,
    {
        let mut r = concat3("https://github.com/", self.repo.as_str(), "/releases/download/");
        let tag = self.boot_dat_tag();
        r.append(tag.as_str());
        r.append("/emulatorkit-runtime-linux-amd64.tar.gz");
        r
    }
}

/// `s` is a relative path: it does not start with `/`.
pub open spec fn is_relative(s: Seq<char>) -> bool {
    !(s.len() > 0 && s[0] == '/')
}

/// Every prebuilt toolchain name is a non-empty relative path component.
pub proof fn lemma_host_targets_are_relative(os: Seq<char>, arch: Seq<char>)
    ensures
        host_target(os, arch) is Some ==> host_target(os, arch)->0.len() > 0 && is_relative(
            host_target(os, arch)->0,
        ),
{
    reveal_strlit("darwin-arm64");
    reveal_strlit("darwin-x86_64");
    reveal_strlit("linux-amd64");
    reveal_strlit("linux-arm64");
    reveal_strlit("windows-amd64");
}

proof fn lemma_join_twice_extends(base: Seq<char>, a: Seq<char>, b: Seq<char>)
    requires
        base.len() > 0,
        a.len() > 0,
        is_relative(a),
        is_relative(b),
    ensures
        join_spec(join_spec(base, a), b).take(base.len() as int) == base,
{
    crate::paths::lemma_join_extends(base, a);
    let x = join_spec(base, a);
    crate::paths::lemma_join_extends(x, b);
    assert(join_spec(x, b).take(base.len() as int) =~= x.take(x.len() as int).take(base.len() as int));
    assert(x.take(x.len() as int) =~= x);
}

impl ToolchainManager {
    /// Everything the manager installs lies under its base directory: the
    /// toolchain, runtime and emulator directories all start with it, as long
    /// as the base is not empty and the host name is a relative component (as
    /// every name [`host_target`] gives is).
    pub proof fn lemma_install_dirs_under_base(&self)
        requires
            self.base_dir@.len() > 0,
            is_relative(self.arch@),
        ensures
            self.toolchain_dir_spec().take(self.base_dir@.len() as int) == self.base_dir@,
            self.runtime_dir_spec().take(self.base_dir@.len() as int) == self.base_dir@,
            self.emulators_dir_spec().take(self.base_dir@.len() as int) == self.base_dir@,
    {
        reveal_strlit("toolchain");
        reveal_strlit("runtime");
        reveal_strlit("emulators");
        lemma_join_twice_extends(self.base_dir@, "toolchain"@, self.arch@);
        lemma_join_twice_extends(self.base_dir@, "emulators"@, self.arch@);
        crate::paths::lemma_join_extends(self.base_dir@, "runtime"@);
    }
}

/// Whether a downloaded boot data file of `len` bytes is whole enough to keep.
pub fn boot_dat_is_complete(len: usize) -> (r: bool)
    ensures
        r == (len >= 4096),
{
    len >= 4096
}

/// An archive entry whose final path component is `file_name` is the boot
/// data file.
pub open spec fn is_boot_dat_spec(file_name: Option<Seq<char>>) -> bool {
    file_name == Some("boot.dat"@)
}

/// See [`is_boot_dat_spec`].
pub fn is_boot_dat_name(file_name: Option<String>) -> (r: bool)
    ensures
        r == is_boot_dat_spec(crate::paths::opt_view(file_name)),
{
    match file_name {
        Some(n) => str_eq(n.as_str(), "boot.dat"),
        None => false,
    }
}

/// Whether the archive entry at `path` is the boot data file, judged by the
/// entry's final path component as `Path::file_name` gives it.
pub fn is_boot_dat_entry(path: &str) -> (r: bool)
    ensures
        r == is_boot_dat_spec(crate::paths::path_file_name(path@)),
{
    is_boot_dat_name(crate::paths::file_name_of(path))
}

/// The contents of the first of `entries` whose final path component is
/// `boot.dat`, if any.
pub open spec fn boot_dat_contents(entries: Seq<(Seq<char>, Seq<u8>)>) -> Option<Seq<u8>>
    decreases entries.len(),
{
    if entries.len() == 0 {
        None
    } else if is_boot_dat_spec(crate::paths::path_file_name(entries[0].0)) {
        Some(entries[0].1)
    } else {
        boot_dat_contents(entries.drop_first())
    }
}

/// The contents of an optional byte vector.
pub open spec fn opt_bytes(b: Option<Vec<u8>>) -> Option<Seq<u8>> {
    match b {
        Some(v) => Some(v@),
        None => None,
    }
}

/// The boot data among the archive entries `entries` (see
/// [`boot_dat_contents`]).
pub fn boot_dat_in_entries(entries: Vec<(String, Vec<u8>)>) -> (r: Option<Vec<u8>>)
    ensures
        opt_bytes(r) == boot_dat_contents(entries_view(entries@)),
{
    let ghost all = entries_view(entries@);
    let mut rest = entries;
    while rest.len() > 0
        invariant
            all == entries_view(entries@),
            boot_dat_contents(entries_view(rest@)) == boot_dat_contents(all),
        decreases rest.len(),
    {
        let ghost before = rest@;
        let (path, contents) = rest.remove(0);
        assert(entries_view(rest@) =~= entries_view(before).drop_first());
        assert(entries_view(before)[0] == (path@, contents@));
        if is_boot_dat_entry(path.as_str()) {
            assert(boot_dat_contents(entries_view(before)) == Some(contents@));
            return Some(contents);
        }
    }
    assert(entries_view(rest@) =~= Seq::<(Seq<char>, Seq<u8>)>::empty());
    None
}

/// The boot data in the gzip-compressed tar archive `data`: the contents of
/// its first entry whose final path component is `boot.dat`, if any.
pub fn boot_dat_from_archive(data: &[u8]) -> (r: Option<Vec<u8>>)
    ensures
        opt_bytes(r) == boot_dat_contents(tar_gz_entries_spec(data@)),
{
    boot_dat_in_entries(tar_gz_entries(data))
}

} // verus!
