use crate::archive::{entries_view, tar_gz_entries, tar_gz_entries_spec};
use crate::config::FuzixConfig;
use crate::paths::{file_name_of, join, join_spec, opt_str_view, opt_view, parent_of, path_file_name, path_parent};
use crate::plan::{step, steps_view, FileStep, StepKind};
use crate::text::{concat2, has_prefix, has_suffix, str_ends_with, str_eq};
use crate::toolchain::ToolchainManager;
use vstd::prelude::*;

verus! {

/// Where the official 68knano disk image is published.
pub const NANO_DISK_URL: &'static str = "https://fuzix.org/downloads/0.4/68knano/emu-ide.img";

/// Where the official 68knano ROM is published.
pub const NANO_ROM_URL: &'static str = "https://fuzix.org/downloads/0.4/68knano/fuzix.rom";

/// Where the official 68000 disk archive is published.
pub const V68_ARCHIVE_URL: &'static str = "https://fuzix.org/downloads/v68.tar.gz";

/// Maintains the project's disk images.
pub struct DiskManager<'a> {
    pub config: &'a FuzixConfig,
    pub toolchain: &'a ToolchainManager,
}

/// Why a file could not be copied onto the disk image.
#[derive(Debug, Clone, PartialEq, Eq)]
pub enum DiskError {
    /// The host path names no file (it ends in `..` or is a root).
    InvalidSourceFileName,
    /// The project has no root image, and neither the runtime nor an official
    /// download provides one for its target.
    NoRootImage,
}

/// The family of disk images a target boots from.
#[derive(Debug, Clone, Copy, PartialEq, Eq, Structural)]
pub enum ImageFamily {
    /// The 68knano board: an IDE image and a ROM.
    Nano68k,
    /// The 68000 boards (`v68`, `tiny68k`, or any target whose CPU is `68000`).
    Virtual68k,
    /// Every other target: a boot and a root image shipped with the runtime.
    Bundled,
}

/// What is present on disk when the images are prepared.
#[derive(Debug, Clone, Copy)]
pub struct ImageFacts {
    /// The project's root image exists.
    pub root_present: bool,
    /// The project's boot image exists.
    pub boot_present: bool,
    /// The root image the runtime ships for the target's family exists.
    pub bundled_root_present: bool,
    /// The boot image the runtime ships exists.
    pub bundled_boot_present: bool,
    /// The 68knano ROM exists in the emulators directory.
    pub rom_present: bool,
}

/// What an entry of the official 68000 disk archive is used for.
#[derive(Debug, Clone, Copy, PartialEq, Eq, Structural)]
pub enum ArchiveEntryUse {
    /// It becomes the project's root image.
    RootImage,
    /// It becomes the emulators' boot data file.
    BootData,
}

/// One run of the `ucp` disk tool: the tool, the image it works on, the
/// directory it runs in (when it matters) and the commands fed to it.
#[derive(Debug, Clone)]
pub struct UcpJob {
    pub program: String,
    pub image: String,
    pub working_dir: Option<String>,
    pub script: String,
}

/// The image family of a target with emulator `emu` and CPU `cpu`.
pub open spec fn family_of(emu: Seq<char>, cpu: Seq<char>) -> ImageFamily {
    if emu == "68knano"@ {
        ImageFamily::Nano68k
    } else if emu == "v68"@ || emu == "tiny68k"@ || cpu == "68000"@ {
        ImageFamily::Virtual68k
    } else {
        ImageFamily::Bundled
    }
}

/// A step of this kind writes its target file.
pub open spec fn writes_file(k: StepKind) -> bool {
    k == StepKind::Copy || k == StepKind::CopyIfPresent || k == StepKind::Download || k
        == StepKind::DownloadArchive
}

/// The step that creates the directory of the host path `p`, if it has one.
pub open spec fn dir_step_spec(p: Seq<char>) -> Seq<(StepKind, Seq<char>, Seq<char>)> {
    match path_parent(p) {
        Some(d) => seq![(StepKind::CreateDir, Seq::empty(), d)],
        None => Seq::empty(),
    }
}

/// Appends to `steps` the step that creates the directory of `p` (see
/// [`dir_step_spec`]).
fn push_dir_step(steps: &mut Vec<FileStep>, p: &str)
    ensures
        steps_view(final(steps)@) == steps_view(old(steps)@) + dir_step_spec(p@),
{
    let ghost before = steps_view(steps@);
    match parent_of(p) {
        Some(d) => {
            steps.push(step(StepKind::CreateDir, "", d.as_str()));
            proof {
                reveal_strlit("");
                assert(""@ =~= Seq::<char>::empty());
            }
            assert(steps_view(steps@) =~= before + dir_step_spec(p@));
        },
        None => {
            assert(steps_view(steps@) =~= before + dir_step_spec(p@));
        },
    }
}

/// What the entry at `path` of the official 68000 archive is used for: disk
/// images (names ending in `disk.img`, `drive.ide` or `fuzix.dsk`) become the
/// root image, a name ending in `boot.dat` the boot data; anything else is
/// skipped.
pub open spec fn entry_use(path: Seq<char>) -> Option<ArchiveEntryUse> {
    if has_suffix(path, "disk.img"@) || has_suffix(path, "drive.ide"@) || has_suffix(
        path,
        "fuzix.dsk"@,
    ) {
        Some(ArchiveEntryUse::RootImage)
    } else if has_suffix(path, "boot.dat"@) {
        Some(ArchiveEntryUse::BootData)
    } else {
        None
    }
}

/// What the entry at `path` of the official 68000 archive is used for (see
/// [`entry_use`]).
pub fn archive_entry_use(path: &str) -> (r: Option<ArchiveEntryUse>)
    ensures
        r == entry_use(path@),
{
    if str_ends_with(path, "disk.img") || str_ends_with(path, "drive.ide") || str_ends_with(
        path,
        "fuzix.dsk",
    ) {
        Some(ArchiveEntryUse::RootImage)
    } else if str_ends_with(path, "boot.dat") {
        Some(ArchiveEntryUse::BootData)
    } else {
        None
    }
}

/// The files that the entries of the official 68000 archive become, in
/// archive order: each entry that [`entry_use`] marks as the root image is
/// written to `root`, each one marked as boot data to `boot`, with the
/// entry's contents; the other entries are skipped.
pub open spec fn archive_writes_spec(
    entries: Seq<(Seq<char>, Seq<u8>)>,
    root: Seq<char>,
    boot: Seq<char>,
) -> Seq<(Seq<char>, Seq<u8>)>
    decreases entries.len(),
{
    if entries.len() == 0 {
        Seq::empty()
    } else {
        let rest = archive_writes_spec(entries.drop_first(), root, boot);
        match entry_use(entries[0].0) {
            Some(ArchiveEntryUse::RootImage) => seq![(root, entries[0].1)] + rest,
            Some(ArchiveEntryUse::BootData) => seq![(boot, entries[0].1)] + rest,
            None => rest,
        }
    }
}

/// The files that the archive entries `entries` become (see
/// [`archive_writes_spec`]), as (target path, contents) pairs.
pub fn entries_writes(entries: Vec<(String, Vec<u8>)>, root_target: &str, boot_target: &str) -> (r:
    Vec<(String, Vec<u8>)>)
    ensures
        entries_view(r@) == archive_writes_spec(entries_view(entries@), root_target@, boot_target@),
{
    let ghost all = entries_view(entries@);
    let mut rest = entries;
    let mut out: Vec<(String, Vec<u8>)> = Vec::new();
    while rest.len() > 0
        invariant
            all == entries_view(entries@),
            entries_view(out@) + archive_writes_spec(entries_view(rest@), root_target@, boot_target@)
                == archive_writes_spec(all, root_target@, boot_target@),
        decreases rest.len(),
    {
        let ghost before = entries_view(rest@);
        let ghost done = entries_view(out@);
        let (path, contents) = rest.remove(0);
        assert(entries_view(rest@) =~= before.drop_first());
        assert(before[0] == (path@, contents@));
        let ghost tail = archive_writes_spec(entries_view(rest@), root_target@, boot_target@);
        match archive_entry_use(path.as_str()) {
            Some(ArchiveEntryUse::RootImage) => {
                out.push((String::from_str(root_target), contents));
                assert(entries_view(out@) =~= done.push((root_target@, before[0].1)));
                assert(entries_view(out@) + tail =~= done + (seq![(root_target@, before[0].1)] + tail));
            },
            Some(ArchiveEntryUse::BootData) => {
                out.push((String::from_str(boot_target), contents));
                assert(entries_view(out@) =~= done.push((boot_target@, before[0].1)));
                assert(entries_view(out@) + tail =~= done + (seq![(boot_target@, before[0].1)] + tail));
            },
            None => {},
        }
    }
    assert(entries_view(rest@) =~= Seq::<(Seq<char>, Seq<u8>)>::empty());
    assert(entries_view(out@) + Seq::<(Seq<char>, Seq<u8>)>::empty() =~= entries_view(out@));
    out
}

/// The files that the official 68000 disk archive `data` (gzip-compressed
/// tar) becomes when the root image goes to `root_target` and the boot data
/// to `boot_target`: [`archive_writes_spec`] of its entries.
pub fn archive_writes(data: &[u8], root_target: &str, boot_target: &str) -> (r: Vec<(String, Vec<u8>)>)
    ensures
        entries_view(r@) == archive_writes_spec(tar_gz_entries_spec(data@), root_target@, boot_target@),
{
    entries_writes(tar_gz_entries(data), root_target, boot_target)
}

/// `s` without the `'/'` characters at its end.
pub open spec fn trim_trailing_slashes(s: Seq<char>) -> Seq<char>
    decreases s.len(),
{
    if s.len() > 0 && s.last() == '/' {
        trim_trailing_slashes(s.drop_last())
    } else {
        s
    }
}

/// `s` without the `'/'` characters at its end.
pub fn trim_slashes_end(s: &str) -> (r: String)
    ensures
        r@ == trim_trailing_slashes(s@),
{
    let v = crate::text::chars_of(s);
    let mut n = v.len();
    assert(v@.take(n as int) =~= v@);
    while n > 0 && v[n - 1] == '/'
        invariant
            n <= v.len(),
            trim_trailing_slashes(v@) == trim_trailing_slashes(v@.take(n as int)),
        decreases n,
    {
        assert(v@.take(n as int).drop_last() =~= v@.take(n - 1));
        n = n - 1;
    }
    assert(trim_trailing_slashes(v@.take(n as int)) == v@.take(n as int));
    proof {
        assert(v@.take(v@.len() as int) =~= v@);
        assert(v@.take(n as int) =~= v@.subrange(0, n as int));
    }
    String::from_str(s.substring_char(0, n))
}

/// The directory and file name a host file named `src_name` gets on the
/// disk image when it is copied to `dest`, given the parent directory and
/// final component of `dest`: a `dest` ending in `'/'` is a directory and
/// the file keeps its name; otherwise `dest` names the file, in its parent
/// directory (`/` when it has none). An empty directory becomes `/`.
pub open spec fn destination_spec(
    dest: Seq<char>,
    src_name: Seq<char>,
    dest_parent: Option<Seq<char>>,
    dest_name: Option<Seq<char>>,
) -> (Seq<char>, Seq<char>) {
    let (dir, name) = if dest.len() > 0 && dest.last() == '/' {
        (trim_trailing_slashes(dest), src_name)
    } else {
        (
            match dest_parent {
                Some(p) => p,
                None => "/"@,
            },
            match dest_name {
                Some(n) => n,
                None => src_name,
            },
        )
    };
    (if dir.len() == 0 {
        "/"@
    } else {
        dir
    }, name)
}

/// See [`destination_spec`].
pub fn copy_destination(
    dest: &str,
    src_name: &str,
    dest_parent: Option<String>,
    dest_name: Option<String>,
) -> (r: (String, String))
    ensures
        (r.0@, r.1@) == destination_spec(
            dest@,
            src_name@,
            match dest_parent {
                Some(p) => Some(p@),
                None => None,
            },
            match dest_name {
                Some(n) => Some(n@),
                None => None,
            },
        ),
{
    let ends = str_ends_with(dest, "/");
    proof {
        reveal_strlit("/");
        assert("/"@ =~= seq!['/']);
        if dest@.len() > 0 {
            assert(dest@.skip(dest@.len() - 1) =~= seq![dest@.last()]);
            if ends {
                assert(dest@.skip(dest@.len() - 1)[0] == '/');
            }
        }
        assert(ends == (dest@.len() > 0 && dest@.last() == '/'));
    }
    let (dir, name) = if ends {
        (trim_slashes_end(dest), String::from_str(src_name))
    } else {
        (
            match dest_parent {
                Some(p) => p,
                None => String::from_str("/"),
            },
            match dest_name {
                Some(n) => n,
                None => String::from_str(src_name),
            },
        )
    };
    if dir.as_str().unicode_len() == 0 {
        (String::from_str("/"), name)
    } else {
        (dir, name)
    }
}

/// The commands that make `ucp` copy the host file `src_name` (from its
/// working directory) into `dest_dir` as `dest_name`, with mode `mode` when
/// one is given.
pub open spec fn copy_script_spec(
    dest_dir: Seq<char>,
    src_name: Seq<char>,
    dest_name: Seq<char>,
    mode: Option<Seq<char>>,
) -> Seq<char> {
    "cd "@ + dest_dir + "\nbget "@ + src_name + "\n"@ + (if src_name != dest_name {
        "mv "@ + src_name + " "@ + dest_name + "\n"@
    } else {
        Seq::empty()
    }) + (match mode {
        Some(m) => "chmod "@ + m + " "@ + dest_name + "\n"@,
        None => Seq::empty(),
    }) + "exit\n"@
}

/// A host file whose name differs from the destination name is renamed to
/// it right after it is fetched, whatever the mode; a mode only adds its
/// `chmod` line before the closing `exit`.
pub proof fn lemma_copy_script_renames(
    dest_dir: Seq<char>,
    src_name: Seq<char>,
    dest_name: Seq<char>,
    mode: Option<Seq<char>>,
)
    ensures
        src_name != dest_name ==> has_prefix(
            copy_script_spec(dest_dir, src_name, dest_name, mode),
            "cd "@ + dest_dir + "\nbget "@ + src_name + "\nmv "@ + src_name + " "@ + dest_name
                + "\n"@,
        ),
        has_suffix(copy_script_spec(dest_dir, src_name, dest_name, None), "exit\n"@),
        mode is Some ==> copy_script_spec(dest_dir, src_name, dest_name, mode) == copy_script_spec(
            dest_dir,
            src_name,
            dest_name,
            None,
        ).take(
            copy_script_spec(dest_dir, src_name, dest_name, None).len() - "exit\n"@.len(),
        ) + "chmod "@ + mode->0 + " "@ + dest_name + "\n"@ + "exit\n"@,
{
    let head = "cd "@ + dest_dir + "\nbget "@ + src_name + "\n"@;
    let mv = if src_name != dest_name {
        "mv "@ + src_name + " "@ + dest_name + "\n"@
    } else {
        Seq::<char>::empty()
    };
    let plain = copy_script_spec(dest_dir, src_name, dest_name, None);
    reveal_strlit("exit\n");
    assert(plain =~= head + mv + "exit\n"@);
    assert(plain.skip(plain.len() - 5) =~= "exit\n"@);
    assert(plain.take(plain.len() - "exit\n"@.len()) =~= head + mv);
    if src_name != dest_name {
        let full = copy_script_spec(dest_dir, src_name, dest_name, mode);
        let p = "cd "@ + dest_dir + "\nbget "@ + src_name + "\nmv "@ + src_name + " "@ + dest_name
            + "\n"@;
        reveal_strlit("\n");
        reveal_strlit("\nbget ");
        reveal_strlit("mv ");
        reveal_strlit("\nmv ");
        assert(p =~= head + mv);
        assert(full.take(p.len() as int) =~= p);
    }
}

/// See [`copy_script_spec`].
pub fn copy_script(dest_dir: &str, src_name: &str, dest_name: &str, mode: Option<&str>) -> (r:
    String)
    ensures
        r@ == copy_script_spec(
            dest_dir@,
            src_name@,
            dest_name@,
            match mode {
                Some(m) => Some(m@),
                None => None,
            },
        ),
{
    let mut r = concat2("cd ", dest_dir);
    r.append("\nbget ");
    r.append(src_name);
    r.append("\n");
    if !str_eq(src_name, dest_name) {
        r.append("mv ");
        r.append(src_name);
        r.append(" ");
        r.append(dest_name);
        r.append("\n");
    }
    match mode {
        Some(m) => {
            r.append("chmod ");
            r.append(m);
            r.append(" ");
            r.append(dest_name);
            r.append("\n");
        },
        None => {},
    }
    r.append("exit\n");
    r
}

/// The commands that make `ucp` list the directory `path` in long form.
pub fn list_script(path: &str) -> (r: String)
    ensures
        r@ == "cd "@ + path@ + "\nls -l\nexit\n"@,
{
    let mut r = concat2("cd ", path);
    r.append("\nls -l\nexit\n");
    r
}

impl<'a> DiskManager<'a> {
    /// A disk manager for `config` with `toolchain`.
    pub fn new(config: &'a FuzixConfig, toolchain: &'a ToolchainManager) -> (r: Self)
        ensures
            *r.config == *config,
            *r.toolchain == *toolchain,
    {
        DiskManager { config, toolchain }
    }

    /// The project's boot image.
    pub fn boot_image_path(&self) -> (r: String)
        ensures
            r@ == self.config.disk.boot_image@,
    {
        self.config.disk.boot_image.clone()
    }

    /// The project's root image.
    pub fn root_image_path(&self) -> (r: String)
        ensures
            r@ == self.config.disk.root_image@,
    {
        self.config.disk.root_image.clone()
    }

    /// The image family of the configured target.
    pub fn image_family(&self) -> (r: ImageFamily)
        ensures
            r == family_of(self.config.target.emulator@, self.config.target.cpu@),
    {
        let emu = self.config.target.emulator.as_str();
        if str_eq(emu, "68knano") {
            ImageFamily::Nano68k
        } else if str_eq(emu, "v68") || str_eq(emu, "tiny68k") || str_eq(
            self.config.target.cpu.as_str(),
            "68000",
        ) {
            ImageFamily::Virtual68k
        } else {
            ImageFamily::Bundled
        }
    }

    /// The root image the runtime ships for the configured target.
    pub open spec fn bundled_root_spec(&self) -> Seq<char> {
        let images = join_spec(self.toolchain.runtime_dir_spec(), "images"@);
        match family_of(self.config.target.emulator@, self.config.target.cpu@) {
            ImageFamily::Nano68k => join_spec(images, "68knano-disk.img"@),
            ImageFamily::Virtual68k => join_spec(images, "v68-disk.img"@),
            ImageFamily::Bundled => join_spec(images, "hd-fuzix.dsk"@),
        }
    }

    /// See [`Self::bundled_root_spec`].
    pub fn bundled_root_image(&self) -> (r: String)
        ensures
            r@ == self.bundled_root_spec(),
    {
        let runtime = self.toolchain.runtime_dir();
        let images = join(runtime.as_str(), "images");
        match self.image_family() {
            ImageFamily::Nano68k => join(images.as_str(), "68knano-disk.img"),
            ImageFamily::Virtual68k => join(images.as_str(), "v68-disk.img"),
            ImageFamily::Bundled => join(images.as_str(), "hd-fuzix.dsk"),
        }
    }

    /// The boot image the runtime ships.
    pub fn bundled_boot_image(&self) -> (r: String)
        ensures
            r@ == join_spec(join_spec(self.toolchain.runtime_dir_spec(), "images"@), "boot.dsk"@),
    {
        let runtime = self.toolchain.runtime_dir();
        let images = join(runtime.as_str(), "images");
        join(images.as_str(), "boot.dsk")
    }

    /// The 68knano ROM in the emulators directory.
    pub fn nano_rom_path(&self) -> (r: String)
        ensures
            r@ == join_spec(self.toolchain.emulators_dir_spec(), "68knano.rom"@),
    {
        let d = self.toolchain.emulators_dir();
        join(d.as_str(), "68knano.rom")
    }

    /// The steps that bring the project's images into place, given what is
    /// present: images already there are kept; otherwise the runtime's own
    /// images are copied, and the official ones downloaded where the runtime
    /// has none (68knano also fetches its ROM when it is missing).
    pub open spec fn image_steps_spec(&self, facts: ImageFacts) -> Seq<(StepKind, Seq<char>, Seq<char>)> {
        let root = self.config.disk.root_image@;
        let boot = self.config.disk.boot_image@;
        let bundled_root = self.bundled_root_spec();
        let bundled_boot = join_spec(
            join_spec(self.toolchain.runtime_dir_spec(), "images"@),
            "boot.dsk"@,
        );
        let rom = join_spec(self.toolchain.emulators_dir_spec(), "68knano.rom"@);
        match family_of(self.config.target.emulator@, self.config.target.cpu@) {
            ImageFamily::Nano68k => (if facts.root_present {
                Seq::empty()
            } else if facts.bundled_root_present {
                seq![(StepKind::Copy, bundled_root, root)]
            } else {
                seq![(StepKind::Download, NANO_DISK_URL@, root)]
            }) + (if facts.rom_present {
                Seq::empty()
            } else {
                seq![(StepKind::Download, NANO_ROM_URL@, rom)]
            }),
            ImageFamily::Virtual68k => if facts.root_present {
                Seq::empty()
            } else if facts.bundled_root_present {
                seq![(StepKind::Copy, bundled_root, root)]
            } else {
                seq![(StepKind::DownloadArchive, V68_ARCHIVE_URL@, root)]
            },
            ImageFamily::Bundled => (if !facts.boot_present && facts.bundled_boot_present {
                seq![(StepKind::Copy, bundled_boot, boot)]
            } else {
                Seq::empty()
            }) + (if !facts.root_present && facts.bundled_root_present {
                seq![(StepKind::Copy, bundled_root, root)]
            } else {
                Seq::empty()
            }),
        }
    }

    /// The steps that create the directories the two images go in (that of
    /// the boot image, then that of the root image), for each image path that
    /// has a parent.
    pub open spec fn image_dir_steps_spec(&self) -> Seq<(StepKind, Seq<char>, Seq<char>)> {
        dir_step_spec(self.config.disk.boot_image@) + dir_step_spec(self.config.disk.root_image@)
    }

    /// No root image can be had: the project has none, and for a target
    /// outside the 68k families (which download one) the runtime ships none.
    pub open spec fn root_image_unavailable(&self, facts: ImageFacts) -> bool {
        &&& family_of(self.config.target.emulator@, self.config.target.cpu@)
            == ImageFamily::Bundled
        &&& !facts.root_present
        &&& !facts.bundled_root_present
    }

    /// A project's existing root image is never overwritten: when it is
    /// present, no step of the plan copies, downloads or unpacks anything into
    /// it, for every image family (given that its path is neither the boot
    /// image's nor the 68knano ROM's). When it is absent and can be had, some
    /// step puts it in place.
    pub proof fn lemma_root_image_written_only_when_absent(&self, facts: ImageFacts)
        requires
            self.config.disk.root_image@ != self.config.disk.boot_image@,
            self.config.disk.root_image@ != join_spec(
                self.toolchain.emulators_dir_spec(),
                "68knano.rom"@,
            ),
        ensures
            facts.root_present ==> forall|i: int|
                0 <= i < self.image_plan_spec(facts).len() && writes_file(
                    #[trigger] self.image_plan_spec(facts)[i].0,
                ) ==> self.image_plan_spec(facts)[i].2 != self.config.disk.root_image@,
            !facts.root_present && !self.root_image_unavailable(facts) ==> exists|i: int|
                0 <= i < self.image_plan_spec(facts).len() && writes_file(
                    #[trigger] self.image_plan_spec(facts)[i].0,
                ) && self.image_plan_spec(facts)[i].2 == self.config.disk.root_image@,
    {
        let dirs = self.image_dir_steps_spec();
        let work = self.image_steps_spec(facts);
        let plan = self.image_plan_spec(facts);
        let root = self.config.disk.root_image@;
        assert(plan =~= dirs + work.push((StepKind::RequireFile, Seq::empty(), root)));
        assert forall|i: int| 0 <= i < dirs.len() implies (#[trigger] dirs[i]).0 == StepKind::CreateDir by {
            assert(dir_step_spec(self.config.disk.boot_image@).len() <= 1);
            if i < dir_step_spec(self.config.disk.boot_image@).len() {
                assert(dirs[i] == dir_step_spec(self.config.disk.boot_image@)[i]);
            } else {
                assert(dirs[i] == dir_step_spec(root)[i - dir_step_spec(
                    self.config.disk.boot_image@,
                ).len()]);
            }
        }
        if facts.root_present {
            assert forall|i: int|
                0 <= i < plan.len() && writes_file(#[trigger] plan[i].0) implies plan[i].2 != root by {
                if i < dirs.len() {
                    assert(plan[i] == dirs[i]);
                } else if i < dirs.len() + work.len() {
                    assert(plan[i] == work[i - dirs.len()]);
                } else {
                    assert(plan[i] == (StepKind::RequireFile, Seq::<char>::empty(), root));
                }
            }
        } else if !self.root_image_unavailable(facts) {
            if family_of(self.config.target.emulator@, self.config.target.cpu@)
                == ImageFamily::Bundled {
                let w = work.len() - 1;
                assert(w >= 0 && writes_file(work[w].0) && work[w].2 == root);
                assert(plan[dirs.len() + w] == work[w]);
            } else {
                assert(work.len() > 0 && writes_file(work[0].0) && work[0].2 == root);
                assert(plan[dirs.len() as int] == work[0]);
            }
        }
    }

    /// The whole plan of [`Self::image_steps`] when it succeeds.
    pub open spec fn image_plan_spec(&self, facts: ImageFacts) -> Seq<(StepKind, Seq<char>, Seq<char>)> {
        self.image_dir_steps_spec() + self.image_steps_spec(facts).push(
            (StepKind::RequireFile, Seq::empty(), self.config.disk.root_image@),
        )
    }

    /// The plan that makes the project's images exist: the creation of the
    /// images' directories ([`Self::image_dir_steps_spec`]), the steps of
    /// [`Self::image_steps_spec`], then a check that the root image is there,
    /// so that a run of the plan that succeeds leaves the root image in place
    /// (a download that failed is caught by that check). When no root image
    /// can be had at all there is no plan but an error.
    pub fn image_steps(&self, facts: ImageFacts) -> (r: Result<Vec<FileStep>, DiskError>)
        ensures
            r is Err <==> self.root_image_unavailable(facts),
            r is Err ==> r->Err_0 == DiskError::NoRootImage,
            r is Ok ==> steps_view(r->Ok_0@) == self.image_dir_steps_spec()
                + self.image_steps_spec(facts).push(
                (StepKind::RequireFile, Seq::empty(), self.config.disk.root_image@),
            ),
            r is Ok ==> steps_view(r->Ok_0@) == self.image_plan_spec(facts),
            r is Ok ==> steps_view(r->Ok_0@).last() == (
                StepKind::RequireFile,
                Seq::<char>::empty(),
                self.config.disk.root_image@,
            ),
    {
        let root = self.root_image_path();
        let boot = self.boot_image_path();
        let bundled_root = self.bundled_root_image();
        let mut r: Vec<FileStep> = Vec::new();
        let mut dir_steps: Vec<FileStep> = Vec::new();
        push_dir_step(&mut dir_steps, boot.as_str());
        push_dir_step(&mut dir_steps, root.as_str());
        assert(steps_view(dir_steps@) =~= self.image_dir_steps_spec());
        match self.image_family() {
            ImageFamily::Nano68k => {
                if facts.root_present {
                } else if facts.bundled_root_present {
                    r.push(step(StepKind::Copy, bundled_root.as_str(), root.as_str()));
                } else {
                    r.push(step(StepKind::Download, NANO_DISK_URL, root.as_str()));
                }
                if !facts.rom_present {
                    let rom = self.nano_rom_path();
                    r.push(step(StepKind::Download, NANO_ROM_URL, rom.as_str()));
                }
                assert(steps_view(r@) =~= self.image_steps_spec(facts));
            },
            ImageFamily::Virtual68k => {
                if facts.root_present {
                } else if facts.bundled_root_present {
                    r.push(step(StepKind::Copy, bundled_root.as_str(), root.as_str()));
                } else {
                    r.push(step(StepKind::DownloadArchive, V68_ARCHIVE_URL, root.as_str()));
                }
                assert(steps_view(r@) =~= self.image_steps_spec(facts));
            },
            ImageFamily::Bundled => {
                if !facts.boot_present && facts.bundled_boot_present {
                    let bundled_boot = self.bundled_boot_image();
                    r.push(step(StepKind::Copy, bundled_boot.as_str(), boot.as_str()));
                }
                if !facts.root_present && facts.bundled_root_present {
                    r.push(step(StepKind::Copy, bundled_root.as_str(), root.as_str()));
                }
                assert(steps_view(r@) =~= self.image_steps_spec(facts));
                if !facts.root_present && !facts.bundled_root_present {
                    return Err(DiskError::NoRootImage);
                }
            },
        }
        let ghost work = steps_view(r@);
        r.push(step(StepKind::RequireFile, "", root.as_str()));
        proof {
            reveal_strlit("");
            assert(""@ =~= Seq::<char>::empty());
        }
        assert(steps_view(r@) =~= work.push(
            (StepKind::RequireFile, Seq::<char>::empty(), self.config.disk.root_image@),
        ));
        let mut plan = dir_steps;
        let ghost before = steps_view(plan@);
        let ghost tail = steps_view(r@);
        plan.append(&mut r);
        assert(steps_view(plan@) =~= before + tail);
        Ok(plan)
    }

    /// The `ucp` run that copies a host file onto the root image at the disk
    /// path `dest`, given the host file's final path component `src_name`
    /// and directory `src_parent`, and the parent directory and final
    /// component of `dest`: it runs [`copy_script_spec`] for the destination
    /// that [`destination_spec`] gives, in the host file's directory (`.` when
    /// it has none or it is empty, as for a bare file name); it fails when the
    /// host path has no final component.
    pub open spec fn copy_job_spec(
        &self,
        job: Result<UcpJob, DiskError>,
        src_name: Option<Seq<char>>,
        src_parent: Option<Seq<char>>,
        dest: Seq<char>,
        dest_parent: Option<Seq<char>>,
        dest_name: Option<Seq<char>>,
        mode: Option<Seq<char>>,
    ) -> bool {
        match src_name {
            None => job == Err::<UcpJob, DiskError>(DiskError::InvalidSourceFileName),
            Some(n) => {
                let (dir, name) = destination_spec(dest, n, dest_parent, dest_name);
                &&& job is Ok
                &&& job->Ok_0.program@ == join_spec(self.toolchain.runtime_dir_spec(), "ucp"@)
                &&& job->Ok_0.image@ == self.config.disk.root_image@
                &&& job->Ok_0.working_dir is Some
                &&& job->Ok_0.working_dir->0@ == match src_parent {
                    Some(p) => if p.len() > 0 {
                        p
                    } else {
                        "."@
                    },
                    None => "."@,
                }
                &&& job->Ok_0.script@ == copy_script_spec(dir, n, name, mode)
            },
        }
    }

    /// See [`Self::copy_job_spec`].
    pub fn copy_job(
        &self,
        src_name: Option<String>,
        src_parent: Option<String>,
        dest: &str,
        dest_parent: Option<String>,
        dest_name: Option<String>,
        mode: Option<&str>,
    ) -> (r: Result<UcpJob, DiskError>)
        ensures
            self.copy_job_spec(
                r,
                opt_view(src_name),
                opt_view(src_parent),
                dest@,
                opt_view(dest_parent),
                opt_view(dest_name),
                opt_str_view(mode),
            ),
    {
        let src_name = match src_name {
            Some(n) => n,
            None => return Err(DiskError::InvalidSourceFileName),
        };
        let (dir, name) = copy_destination(dest, src_name.as_str(), dest_parent, dest_name);
        let working_dir = match src_parent {
            Some(p) => if p.as_str().unicode_len() > 0 {
                p
            } else {
                String::from_str(".")
            },
            None => String::from_str("."),
        };
        let script = copy_script(dir.as_str(), src_name.as_str(), name.as_str(), mode);
        Ok(UcpJob {
            program: self.toolchain.ucp_binary(),
            image: self.root_image_path(),
            working_dir: Some(working_dir),
            script,
        })
    }

    /// The `ucp` run that copies the host file `src` onto the root image at the
    /// disk path `dest`, with mode `mode` when one is given (see
    /// [`Self::copy_job_spec`]); the final components and parents of both paths
    /// are those `Path::file_name` and `Path::parent` give.
    pub fn copy_file(&self, src: &str, dest: &str, mode: Option<&str>) -> (r: Result<UcpJob, DiskError>)
        ensures
            self.copy_job_spec(
                r,
                path_file_name(src@),
                path_parent(src@),
                dest@,
                path_parent(dest@),
                path_file_name(dest@),
                opt_str_view(mode),
            ),
    {
        let src_name = file_name_of(src);
        let src_parent = parent_of(src);
        let dest_parent = parent_of(dest);
        let dest_name = file_name_of(dest);
        self.copy_job(src_name, src_parent, dest, dest_parent, dest_name, mode)
    }

    /// The `ucp` run that lists the disk directory `path` of the root image.
    pub fn list_dir(&self, path: &str) -> (r: UcpJob)
        ensures
            r.program@ == join_spec(self.toolchain.runtime_dir_spec(), "ucp"@),
            r.image@ == self.config.disk.root_image@,
            r.working_dir is None,
            r.script@ == "cd "@ + path@ + "\nls -l\nexit\n"@,
    {
        UcpJob {
            program: self.toolchain.ucp_binary(),
            image: self.root_image_path(),
            working_dir: None,
            script: list_script(path),
        }
    }
}

} // verus!
