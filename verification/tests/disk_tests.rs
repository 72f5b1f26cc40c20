use fuzix::config::FuzixConfig;
use fuzix::disk::{
    archive_entry_use, archive_writes, entries_writes, copy_destination, copy_script, list_script, trim_slashes_end,
    ArchiveEntryUse, DiskError, DiskManager, ImageFacts, ImageFamily,
};
use fuzix::plan::{FileStep, StepKind};
use fuzix::toolchain::ToolchainManager;

fn tm() -> ToolchainManager {
    ToolchainManager::from_parts("r", "latest", "linux", "x86_64", Some("/h".to_string())).unwrap()
}

fn facts(root: bool, boot: bool, b_root: bool, b_boot: bool, rom: bool) -> ImageFacts {
    ImageFacts { root_present: root, boot_present: boot, bundled_root_present: b_root, bundled_boot_present: b_boot, rom_present: rom }
}

#[test]
fn destination_of_a_copy() {
    assert_eq!(copy_destination("/bin/", "hello", None, None), ("/bin".to_string(), "hello".to_string()));
    assert_eq!(copy_destination("///", "hello", None, None), ("/".to_string(), "hello".to_string()));
    assert_eq!(
        copy_destination("/bin/app", "hello", Some("/bin".to_string()), Some("app".to_string())),
        ("/bin".to_string(), "app".to_string())
    );
    assert_eq!(
        copy_destination("app", "hello", Some("".to_string()), Some("app".to_string())),
        ("/".to_string(), "app".to_string())
    );
    assert_eq!(copy_destination("/", "hello", None, None), ("/".to_string(), "hello".to_string()));
    assert_eq!(copy_destination("..", "hello", Some("".to_string()), None), ("/".to_string(), "hello".to_string()));
    assert_eq!(trim_slashes_end("/usr/bin//"), "/usr/bin");
}

#[test]
fn ucp_scripts() {
    assert_eq!(copy_script("/bin", "hello", "hello", None), "cd /bin\nbget hello\nexit\n");
    assert_eq!(
        copy_script("/bin", "hello", "app", Some("755")),
        "cd /bin\nbget hello\nmv hello app\nchmod 755 app\nexit\n"
    );
    assert_eq!(list_script("/bin"), "cd /bin\nls -l\nexit\n");
}

#[test]
fn copy_file_job() {
    let c = FuzixConfig::default();
    let t = tm();
    let d = DiskManager::new(&c, &t);
    let job = d.copy_file("build/hello", "/bin/app", Some("755")).unwrap();
    assert_eq!(job.program, "/h/.fuzix/runtime/ucp");
    assert_eq!(job.image, ".fuzix/images/hd-fuzix.dsk");
    assert_eq!(job.working_dir, Some("build".to_string()));
    assert_eq!(job.script, "cd /bin\nbget hello\nmv hello app\nchmod 755 app\nexit\n");
    let job = d.copy_file("hello", "/usr/bin/", None).unwrap();
    assert_eq!(job.working_dir, Some(".".to_string()));
    assert_eq!(job.script, "cd /usr/bin\nbget hello\nexit\n");
    assert_eq!(d.copy_file("/", "/bin/", None).unwrap_err(), DiskError::InvalidSourceFileName);
    assert_eq!(d.copy_file("a/..", "/bin/", None).unwrap_err(), DiskError::InvalidSourceFileName);
}

#[test]
fn list_dir_job() {
    let c = FuzixConfig::default();
    let t = tm();
    let d = DiskManager::new(&c, &t);
    let job = d.list_dir("/usr");
    assert_eq!(job.program, "/h/.fuzix/runtime/ucp");
    assert_eq!(job.image, ".fuzix/images/hd-fuzix.dsk");
    assert_eq!(job.working_dir, None);
    assert_eq!(job.script, "cd /usr\nls -l\nexit\n");
    assert_eq!(d.boot_image_path(), ".fuzix/images/boot.dsk");
    assert_eq!(d.root_image_path(), ".fuzix/images/hd-fuzix.dsk");
}

#[test]
fn image_families() {
    let t = tm();
    let mut c = FuzixConfig::default();
    assert_eq!(DiskManager::new(&c, &t).image_family(), ImageFamily::Virtual68k);
    c.target.emulator = "68knano".to_string();
    assert_eq!(DiskManager::new(&c, &t).image_family(), ImageFamily::Nano68k);
    c.target.emulator = "rc2014".to_string();
    assert_eq!(DiskManager::new(&c, &t).image_family(), ImageFamily::Virtual68k);
    c.target.cpu = "z80".to_string();
    assert_eq!(DiskManager::new(&c, &t).image_family(), ImageFamily::Bundled);
    c.target.emulator = "tiny68k".to_string();
    assert_eq!(DiskManager::new(&c, &t).image_family(), ImageFamily::Virtual68k);
}

/// The plan's leading steps create the images' directory (for the boot
/// image, then the root image); what follows them is returned.
fn after_dirs(s: &[FileStep]) -> &[FileStep] {
    assert!(s.len() >= 2);
    for d in &s[..2] {
        assert_eq!(d.kind, StepKind::CreateDir);
        assert_eq!(d.from, "");
        assert_eq!(d.to, ".fuzix/images");
    }
    &s[2..]
}

fn require_root(s: &FileStep) {
    assert_eq!(s.kind, StepKind::RequireFile);
    assert_eq!(s.to, ".fuzix/images/hd-fuzix.dsk");
}

#[test]
fn image_steps_for_68000_boards() {
    let t = tm();
    let c = FuzixConfig::default();
    let d = DiskManager::new(&c, &t);
    let all = d.image_steps(facts(true, false, true, false, false)).unwrap();
    let s = after_dirs(&all);
    assert_eq!(s.len(), 1);
    require_root(&s[0]);
    let all = d.image_steps(facts(false, false, true, false, false)).unwrap();
    let s = after_dirs(&all);
    assert_eq!(s.len(), 2);
    assert_eq!(s[0].kind, StepKind::Copy);
    assert_eq!(s[0].from, "/h/.fuzix/runtime/images/v68-disk.img");
    assert_eq!(s[0].to, ".fuzix/images/hd-fuzix.dsk");
    require_root(&s[1]);
    let all = d.image_steps(facts(false, false, false, false, false)).unwrap();
    let s = after_dirs(&all);
    assert_eq!(s.len(), 2);
    assert_eq!(s[0].kind, StepKind::DownloadArchive);
    assert_eq!(s[0].from, "https://fuzix.org/downloads/v68.tar.gz");
    require_root(&s[1]);
}

#[test]
fn image_steps_for_68knano() {
    let t = tm();
    let mut c = FuzixConfig::default();
    c.target.emulator = "68knano".to_string();
    let d = DiskManager::new(&c, &t);
    let all = d.image_steps(facts(false, false, false, false, false)).unwrap();
    let s = after_dirs(&all);
    assert_eq!(s.len(), 3);
    assert_eq!(s[0].kind, StepKind::Download);
    assert_eq!(s[0].from, "https://fuzix.org/downloads/0.4/68knano/emu-ide.img");
    assert_eq!(s[0].to, ".fuzix/images/hd-fuzix.dsk");
    assert_eq!(s[1].kind, StepKind::Download);
    assert_eq!(s[1].from, "https://fuzix.org/downloads/0.4/68knano/fuzix.rom");
    assert_eq!(s[1].to, "/h/.fuzix/emulators/linux-amd64/68knano.rom");
    require_root(&s[2]);
    let all = d.image_steps(facts(false, false, true, false, true)).unwrap();
    let s = after_dirs(&all);
    assert_eq!(s.len(), 2);
    assert_eq!(s[0].from, "/h/.fuzix/runtime/images/68knano-disk.img");
    require_root(&s[1]);
}

#[test]
fn image_steps_for_bundled_targets() {
    let t = tm();
    let mut c = FuzixConfig::default();
    c.target.emulator = "rc2014".to_string();
    c.target.cpu = "z80".to_string();
    let d = DiskManager::new(&c, &t);
    let all = d.image_steps(facts(false, false, true, true, false)).unwrap();
    let s = after_dirs(&all);
    assert_eq!(s.len(), 3);
    assert_eq!((s[0].from.as_str(), s[0].to.as_str()), ("/h/.fuzix/runtime/images/boot.dsk", ".fuzix/images/boot.dsk"));
    assert_eq!((s[1].from.as_str(), s[1].to.as_str()), ("/h/.fuzix/runtime/images/hd-fuzix.dsk", ".fuzix/images/hd-fuzix.dsk"));
    require_root(&s[2]);
    assert_eq!(d.image_steps(facts(false, false, false, false, false)).unwrap_err(), DiskError::NoRootImage);
    assert_eq!(d.image_steps(facts(false, true, false, true, false)).unwrap_err(), DiskError::NoRootImage);
    let all = d.image_steps(facts(true, true, true, true, false)).unwrap();
    let s = after_dirs(&all);
    assert_eq!(s.len(), 1);
    require_root(&s[0]);
}

#[test]
fn archive_entries() {
    assert_eq!(archive_entry_use("v68/disk.img"), Some(ArchiveEntryUse::RootImage));
    assert_eq!(archive_entry_use("drive.ide"), Some(ArchiveEntryUse::RootImage));
    assert_eq!(archive_entry_use("a/fuzix.dsk"), Some(ArchiveEntryUse::RootImage));
    assert_eq!(archive_entry_use("v68/boot.dat"), Some(ArchiveEntryUse::BootData));
    assert_eq!(archive_entry_use("v68/README"), None);
}

fn tar_gz(files: &[(&str, &[u8])]) -> Vec<u8> {
    let enc = flate2::write::GzEncoder::new(Vec::new(), flate2::Compression::default());
    let mut b = tar::Builder::new(enc);
    for (path, data) in files {
        let mut h = tar::Header::new_gnu();
        h.set_size(data.len() as u64);
        h.set_mode(0o644);
        b.append_data(&mut h, path, *data).unwrap();
    }
    b.into_inner().unwrap().finish().unwrap()
}

#[test]
fn official_archive_becomes_root_image_and_boot_data() {
    let data = tar_gz(&[
        ("v68/disk.img", b"DISK"),
        ("v68/README", b"read me"),
        ("v68/boot.dat", b"BOOT"),
    ]);
    let w = archive_writes(&data, ".fuzix/images/hd-fuzix.dsk", "/h/emu/boot.dat");
    assert_eq!(
        w,
        vec![
            (".fuzix/images/hd-fuzix.dsk".to_string(), b"DISK".to_vec()),
            ("/h/emu/boot.dat".to_string(), b"BOOT".to_vec()),
        ]
    );
    assert!(archive_writes(b"garbage", "r", "b").is_empty());
}

#[test]
fn archive_entries_in_order() {
    let entries = vec![
        ("a/drive.ide".to_string(), b"1".to_vec()),
        ("notes.txt".to_string(), b"2".to_vec()),
        ("b/fuzix.dsk".to_string(), b"3".to_vec()),
        ("boot.dat".to_string(), b"4".to_vec()),
    ];
    assert_eq!(
        entries_writes(entries, "root", "boot"),
        vec![
            ("root".to_string(), b"1".to_vec()),
            ("root".to_string(), b"3".to_vec()),
            ("boot".to_string(), b"4".to_vec()),
        ]
    );
    assert!(entries_writes(Vec::new(), "root", "boot").is_empty());
}

#[test]
fn image_directories_come_first() {
    let t = tm();
    let mut c = FuzixConfig::default();
    c.disk.boot_image = "boot.dsk".to_string();
    c.disk.root_image = "/abs/images/hd.dsk".to_string();
    let d = DiskManager::new(&c, &t);
    let s = d.image_steps(facts(true, true, true, true, true)).unwrap();
    assert_eq!(s.len(), 3);
    assert_eq!((s[0].kind, s[0].to.as_str()), (StepKind::CreateDir, ""));
    assert_eq!((s[1].kind, s[1].to.as_str()), (StepKind::CreateDir, "/abs/images"));
    assert_eq!((s[2].kind, s[2].to.as_str()), (StepKind::RequireFile, "/abs/images/hd.dsk"));
}
