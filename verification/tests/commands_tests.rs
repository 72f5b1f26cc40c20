use fuzix::commands::build_plan::{self, BuildRequest};
use fuzix::commands::disk::{execute_cp, execute_ls};
use fuzix::commands::emulators::supported_emulators;
use fuzix::commands::run::{full_command, is_blank, prints_output};
use fuzix::commands::shell;
use fuzix::commands::test::{install_destination, install_mode, install_path};
use fuzix::config::FuzixConfig;
use fuzix::toolchain::ToolchainManager;

fn tm() -> ToolchainManager {
    ToolchainManager::from_parts("r", "latest", "linux", "x86_64", Some("/h".to_string())).unwrap()
}

#[test]
fn disk_ls_defaults_to_bin() {
    let c = FuzixConfig::default();
    let t = tm();
    assert_eq!(execute_ls(None, &c, &t).script, "cd /bin\nls -l\nexit\n");
    assert_eq!(execute_ls(Some("/etc".to_string()), &c, &t).script, "cd /etc\nls -l\nexit\n");
}

#[test]
fn disk_cp_builds_the_ucp_run() {
    let c = FuzixConfig::default();
    let t = tm();
    let job = execute_cp(".fuzix/bin/hello".to_string(), "/bin/hello".to_string(), Some("755".to_string()), &c, &t).unwrap();
    assert_eq!(job.working_dir, Some(".fuzix/bin".to_string()));
    assert_eq!(job.script, "cd /bin\nbget hello\nchmod 755 hello\nexit\n");
}

#[test]
fn shell_picks_the_emulator() {
    let c = FuzixConfig::default();
    let t = tm();
    let l = shell::execute(None, &c, &t);
    assert_eq!(l.emulator, "v68");
    assert_eq!(l.binary, "/h/.fuzix/emulators/linux-amd64/v68");
    let l = shell::execute(Some("cpmsim".to_string()), &c, &t);
    assert_eq!(l.binary, "/h/.fuzix/emulators/linux-amd64/cpmsim");
}

#[test]
fn build_requests() {
    let c = FuzixConfig::default();
    match build_plan::execute(None, None, Some(vec!["all".to_string(), "x".to_string()]), &c) {
        BuildRequest::Make { targets, artifact } => {
            assert_eq!(targets.len(), 2);
            assert_eq!(artifact, "all");
        }
        _ => panic!("expected make"),
    }
    match build_plan::execute(None, None, Some(vec![]), &c) {
        BuildRequest::Make { artifact, .. } => assert_eq!(artifact, "app"),
        _ => panic!("expected make"),
    }
    match build_plan::execute(None, Some("o".to_string()), None, &c) {
        BuildRequest::Compile { source, output } => {
            assert_eq!(source, "hello.c");
            assert_eq!(output, Some("o".to_string()));
        }
        _ => panic!("expected compile"),
    }
    match build_plan::execute(Some("x.c".to_string()), None, None, &c) {
        BuildRequest::Compile { source, .. } => assert_eq!(source, "x.c"),
        _ => panic!("expected compile"),
    }
}

#[test]
fn run_command_line_and_output() {
    assert_eq!(full_command("ls".to_string(), vec![]), "ls");
    assert_eq!(full_command("/bin/hello".to_string(), vec!["a".to_string(), "b c".to_string()]), "/bin/hello a b c");
    assert!(is_blank(" \r\n\t"));
    assert!(is_blank(""));
    assert!(!is_blank(" x "));
    assert!(prints_output(false, "hi"));
    assert!(!prints_output(true, "hi"));
    assert!(!prints_output(false, "  \n"));
    assert!(!prints_output(false, "\u{3000}\u{a0}"));
}

#[test]
fn test_install_target() {
    assert_eq!(install_path(".fuzix/bin/hello"), "/bin/hello");
    assert_eq!(install_path("/"), "/bin/app");
    assert_eq!(install_destination(None), "/bin/app");
    assert_eq!(install_mode(), "755");
}

#[test]
fn emulator_catalog() {
    let e = supported_emulators();
    let names: Vec<&str> = e.iter().map(|i| i.name.as_str()).collect();
    assert_eq!(names, vec!["v68", "tiny68k", "mini68k", "rc2014", "rcbus-z80", "rcbus-z180", "cpmsim", "swt6809", "rcbus-6502", "altair8080"]);
    assert_eq!(e[6].cpu, "8080 / Z80 (8-bit)");
    assert_eq!(e[0].description, "Virtual68 platform with software MMU & IDE disk support (Recommended for 68k)");
}

#[test]
fn sample_program_text() {
    let expected = "#include <stdio.h>\n\nint main(int argc, char **argv) {\n    printf(\"Hello from FUZIX OS!\\n\");\n    for (int i = 1; i < argc; i++) {\n        printf(\"arg[%d] = %s\\n\", i, argv[i]);\n    }\n    return 0;\n}\n";
    assert_eq!(fuzix::commands::init::SAMPLE_PROGRAM, expected);
}
