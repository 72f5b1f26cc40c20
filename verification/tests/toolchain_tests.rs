use fuzix::paths::join;
use fuzix::toolchain::{
    boot_dat_from_archive, boot_dat_in_entries, boot_dat_is_complete, detect_host_arch,
    is_boot_dat_entry, ToolchainError, ToolchainManager,
};

fn manager(release: &str) -> ToolchainManager {
    ToolchainManager::from_parts("notKitory/fuzix-sh", release, "linux", "x86_64", Some("/home/u".to_string()))
        .unwrap()
}

#[test]
fn host_arch_names() {
    assert_eq!(detect_host_arch("macos", "aarch64").unwrap(), "darwin-arm64");
    assert_eq!(detect_host_arch("macos", "x86_64").unwrap(), "darwin-x86_64");
    assert_eq!(detect_host_arch("linux", "x86_64").unwrap(), "linux-amd64");
    assert_eq!(detect_host_arch("linux", "aarch64").unwrap(), "linux-arm64");
    assert_eq!(detect_host_arch("windows", "x86_64").unwrap(), "windows-amd64");
    assert_eq!(
        detect_host_arch("freebsd", "x86_64"),
        Err(ToolchainError::UnsupportedHost { os: "freebsd".to_string(), arch: "x86_64".to_string() })
    );
    assert!(detect_host_arch("windows", "aarch64").is_err());
}

#[test]
fn manager_needs_a_home_and_a_supported_host() {
    assert_eq!(
        ToolchainManager::from_parts("r", "latest", "linux", "x86_64", None).unwrap_err(),
        ToolchainError::NoHomeDirectory
    );
    let e = ToolchainManager::from_parts("r", "latest", "solaris", "sparc", None).unwrap_err();
    assert_eq!(e, ToolchainError::UnsupportedHost { os: "solaris".to_string(), arch: "sparc".to_string() });
    let m = manager("latest");
    assert_eq!(m.base_dir, "/home/u/.fuzix");
    assert_eq!(m.arch, "linux-amd64");
    assert_eq!(m.repo, "notKitory/fuzix-sh");
    assert!(ToolchainManager::new("r", "latest", "plan9", "mips").is_err());
}

#[test]
fn install_layout() {
    let m = manager("latest");
    assert_eq!(m.toolchain_dir(), "/home/u/.fuzix/toolchain/linux-amd64");
    assert_eq!(m.runtime_dir(), "/home/u/.fuzix/runtime");
    assert_eq!(m.emulators_dir(), "/home/u/.fuzix/emulators/linux-amd64");
    assert_eq!(m.fcc_binary(), "/home/u/.fuzix/toolchain/linux-amd64/bin/fcc");
    assert_eq!(m.ucp_binary(), "/home/u/.fuzix/runtime/ucp");
    assert_eq!(m.emulator_binary("v68"), "/home/u/.fuzix/emulators/linux-amd64/v68");
    assert_eq!(m.boot_dat_path(), "/home/u/.fuzix/emulators/linux-amd64/boot.dat");
    assert_eq!(m.completion_marker(), "/home/u/.fuzix/.complete_linux-amd64");
}

#[test]
fn install_assets_in_order() {
    let m = manager("latest");
    let a = m.install_assets();
    assert_eq!(a.len(), 4);
    assert_eq!(a[0], ("fuzix-toolchain-linux-amd64.tar.gz".to_string(), "/home/u/.fuzix/toolchain/linux-amd64".to_string()));
    assert_eq!(a[1], ("fuzix-runtime-linux-amd64.tar.gz".to_string(), "/home/u/.fuzix/runtime".to_string()));
    assert_eq!(a[2], ("emulatorkit-runtime-linux-amd64.tar.gz".to_string(), "/home/u/.fuzix/emulators/linux-amd64".to_string()));
    assert_eq!(a[3], ("z80pack-runtime-linux-amd64.tar.gz".to_string(), "/home/u/.fuzix/emulators/linux-amd64".to_string()));
}

#[test]
fn release_urls() {
    let latest = manager("latest");
    assert_eq!(
        latest.asset_url("fuzix-runtime-linux-amd64.tar.gz"),
        "https://github.com/notKitory/fuzix-sh/releases/latest/download/fuzix-runtime-linux-amd64.tar.gz"
    );
    assert_eq!(latest.boot_dat_tag(), "prebuilt-latest");
    assert_eq!(latest.boot_dat_url(), "https://github.com/notKitory/fuzix-sh/releases/download/prebuilt-latest/boot.dat");
    assert_eq!(
        latest.boot_dat_archive_url(),
        "https://github.com/notKitory/fuzix-sh/releases/download/prebuilt-latest/emulatorkit-runtime-linux-amd64.tar.gz"
    );
    let tagged = manager("v1.2");
    assert_eq!(tagged.asset_url("x.tar.gz"), "https://github.com/notKitory/fuzix-sh/releases/download/v1.2/x.tar.gz");
    assert_eq!(tagged.boot_dat_url(), "https://github.com/notKitory/fuzix-sh/releases/download/v1.2/boot.dat");
}

#[test]
fn boot_dat_checks() {
    assert!(boot_dat_is_complete(4096));
    assert!(!boot_dat_is_complete(4095));
    assert!(is_boot_dat_entry("runtime/boot.dat"));
    assert!(is_boot_dat_entry("boot.dat"));
    assert!(!is_boot_dat_entry("runtime/xboot.dat"));
    assert!(!is_boot_dat_entry("boot.dat.bak"));
}

#[test]
fn path_join_rules() {
    assert_eq!(join("a", "b"), "a/b");
    assert_eq!(join("a/", "b"), "a/b");
    assert_eq!(join("", "b"), "b");
    assert_eq!(join("a", "/abs"), "/abs");
}

#[test]
fn manager_lives_under_the_home_directory() {
    match ToolchainManager::new("r", "latest", "linux", "x86_64") {
        Ok(m) => {
            assert!(m.base_dir.ends_with("/.fuzix") || m.base_dir == ".fuzix");
            assert_eq!(m.arch, "linux-amd64");
        }
        Err(e) => assert_eq!(e, ToolchainError::NoHomeDirectory),
    }
}

fn tar_gz(files: &[(&str, &[u8])]) -> Vec<u8> {
    let enc = flate2::write::GzEncoder::new(Vec::new(), flate2::Compression::default());
    let mut b = tar::Builder::new(enc);
    for (path, data) in files {
        let mut h = tar::Header::new_gnu();
        h.set_size(data.len() as u64);
        h.set_mode(0o644);
        b.append_data(&mut h, path, *data).unwrap();
    }
    b.into_inner().unwrap().finish().unwrap()
}

#[test]
fn boot_dat_taken_from_the_first_matching_entry() {
    let data = tar_gz(&[
        ("dist/README", b"read me"),
        ("dist/boot.dat.bak", b"old"),
        ("dist/boot.dat", b"BOOT-ONE"),
        ("other/boot.dat", b"BOOT-TWO"),
    ]);
    assert_eq!(boot_dat_from_archive(&data), Some(b"BOOT-ONE".to_vec()));
    let none = tar_gz(&[("dist/README", b"read me"), ("dist/xboot.dat", b"x")]);
    assert_eq!(boot_dat_from_archive(&none), None);
    assert_eq!(boot_dat_from_archive(b"not an archive"), None);
}

#[test]
fn boot_dat_among_entries() {
    let entries = vec![
        ("a/readme".to_string(), b"r".to_vec()),
        ("boot.dat".to_string(), b"B".to_vec()),
        ("c/boot.dat".to_string(), b"C".to_vec()),
    ];
    assert_eq!(boot_dat_in_entries(entries), Some(b"B".to_vec()));
    assert_eq!(boot_dat_in_entries(vec![("a".to_string(), b"r".to_vec())]), None);
    assert_eq!(boot_dat_in_entries(Vec::new()), None);
}
