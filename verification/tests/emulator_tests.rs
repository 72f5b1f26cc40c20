use fuzix::config::FuzixConfig;
use fuzix::disk::DiskManager;
use fuzix::emulator::{contains_escape, extract_program_output, work_dir, EmulatorRunner, Session, SessionError};
use fuzix::lines::line_bounds;
use fuzix::plan::StepKind;
use fuzix::toolchain::ToolchainManager;

fn tm() -> ToolchainManager {
    ToolchainManager::from_parts("r", "latest", "linux", "x86_64", Some("/h".to_string())).unwrap()
}

#[test]
fn program_output_between_command_and_prompt() {
    let log = "boot...\r\nlogin: root\r\n# /bin/hello a b\r\nHello from FUZIX OS!\r\narg[1] = a\r\narg[2] = b\r\n# shutdown\r\nSystem halted\r\n";
    assert_eq!(
        extract_program_output(log, "/bin/hello a b"),
        "Hello from FUZIX OS!\narg[1] = a\narg[2] = b"
    );
}

#[test]
fn program_output_edge_cases() {
    assert_eq!(extract_program_output("nothing here\n", "ls"), "");
    assert_eq!(extract_program_output("", "ls"), "");
    assert_eq!(extract_program_output("$ ls\nfoo\nbar", "ls"), "foo\nbar");
    assert_eq!(extract_program_output("ls\n\nx\n$ \n", "ls"), "\nx");
    assert_eq!(extract_program_output("ls\nok\nHalted\nmore", "ls"), "ok");
    assert_eq!(extract_program_output("ls\r", "ls"), "");
}

#[test]
fn lines_follow_str_lines() {
    let text = "a\r\nb\n\nc\r";
    let chars: Vec<char> = text.chars().collect();
    let bounds = line_bounds(&chars);
    let got: Vec<String> = bounds.iter().map(|&(a, b)| chars[a..b].iter().collect()).collect();
    let want: Vec<String> = text.lines().map(|l| l.to_string()).collect();
    assert_eq!(got, want);
    let chars: Vec<char> = "x\n".chars().collect();
    assert_eq!(line_bounds(&chars).len(), 1);
}

#[test]
fn session_logs_in_runs_the_command_and_shuts_down() {
    let cmd = "/bin/hello";
    let mut s = Session::new();
    let st = s.step("Boot> ", cmd);
    assert_eq!(st.replies, vec!["b\r".to_string()]);
    assert!(!s.logged_in);
    let st = s.step("bootdev: ", cmd);
    assert_eq!(st.replies, vec!["0\r".to_string()]);
    let st = s.step("login: ", cmd);
    assert_eq!(st.replies, vec!["root\r".to_string()]);
    let st = s.step("\r\n# ", cmd);
    assert!(s.logged_in && s.command_sent);
    assert_eq!(st.replies, vec!["/bin/hello\r".to_string()]);
    assert!(st.skip_pause && !st.halt);
    let st = s.step("/bin/hello\r\nHello\r\n", cmd);
    assert!(st.replies.is_empty() && !s.command_finished);
    let st = s.step("# ", cmd);
    assert_eq!(st.replies, vec!["shutdown\r".to_string()]);
    assert!(s.command_finished && !st.halt);
    let st = s.step("shutdown\r\nSystem halted\r\n", cmd);
    assert!(st.halt && st.replies.is_empty());
    assert_eq!(s.finish(cmd).unwrap(), "Hello");
}

#[test]
fn session_without_login_times_out() {
    let mut s = Session::new();
    let st = s.step("loading kernel", "ls");
    assert!(st.replies.is_empty() && !st.halt && !st.skip_pause);
    assert_eq!(s.captured, "loading kernel");
    assert_eq!(s.finish("ls"), Err(SessionError::LoginTimeout));
}

#[test]
fn escape_key_detection() {
    assert!(contains_escape(&[b'a', 0x1D, b'b']));
    assert!(!contains_escape(b"ls -l\r"));
    assert!(!contains_escape(&[]));
}

#[test]
fn runner_choices() {
    let t = tm();
    let mut c = FuzixConfig::default();
    c.target.timeout = 30;
    let d = DiskManager::new(&c, &t);
    let r = EmulatorRunner::new(&c, &t, &d);
    assert_eq!(r.emulator_name(None), "v68");
    assert_eq!(r.emulator_name(Some("cpmsim")), "cpmsim");
    assert_eq!(r.session_timeout(None), 30);
    assert_eq!(r.session_timeout(Some(5)), 5);
    assert_eq!(work_dir(), ".fuzix/emulator_work");
}

#[test]
fn launch_arguments() {
    let t = tm();
    let mut c = FuzixConfig::default();
    let strs = |v: &[&str]| v.iter().map(|s| s.to_string()).collect::<Vec<String>>();
    {
        let d = DiskManager::new(&c, &t);
        let r = EmulatorRunner::new(&c, &t, &d);
        assert!(r.launch_args("v68", true, true).is_empty());
        assert_eq!(r.launch_args("68knano", true, true), strs(&["-f", "-0", "-r", "68knano.rom", "-i", "68knano.ide"]));
    }
    c.target.cpu = "68010".to_string();
    {
        let d = DiskManager::new(&c, &t);
        let r = EmulatorRunner::new(&c, &t, &d);
        assert_eq!(r.launch_args("68knano", false, true), strs(&["-f", "-1", "-i", "68knano.ide"]));
    }
    c.target.cpu = "68020".to_string();
    {
        let d = DiskManager::new(&c, &t);
        let r = EmulatorRunner::new(&c, &t, &d);
        assert_eq!(r.launch_args("68knano", false, false), strs(&["-f", "-2"]));
    }
    c.target.cpu = "z80".to_string();
    {
        let d = DiskManager::new(&c, &t);
        let r = EmulatorRunner::new(&c, &t, &d);
        assert_eq!(r.launch_args("68knano", true, false), strs(&["-f", "-r", "68knano.rom"]));
    }
}

#[test]
fn working_directory_steps() {
    let t = tm();
    let c = FuzixConfig::default();
    let d = DiskManager::new(&c, &t);
    let r = EmulatorRunner::new(&c, &t, &d);
    let s = r.workdir_steps("v68", "/p/root.img", "/p/boot.dsk");
    assert_eq!(s.len(), 5);
    assert_eq!((s[0].kind, s[0].from.as_str(), s[0].to.as_str()), (StepKind::CopyIfPresent, "/h/.fuzix/emulators/linux-amd64/boot.dat", ".fuzix/emulator_work/boot.dat"));
    assert_eq!((s[3].kind, s[3].from.as_str(), s[3].to.as_str()), (StepKind::Link, "/p/root.img", ".fuzix/emulator_work/disk.img"));
    assert_eq!((s[4].kind, s[4].to.as_str()), (StepKind::Link, ".fuzix/emulator_work/drive.ide"));
    let s = r.workdir_steps("cpmsim", "/p/root.img", "/p/boot.dsk");
    assert_eq!(s.len(), 5);
    assert_eq!((s[0].kind, s[0].to.as_str()), (StepKind::CreateDir, ".fuzix/emulator_work/disks"));
    assert_eq!((s[3].kind, s[3].from.as_str(), s[3].to.as_str()), (StepKind::LinkRequired, "/p/boot.dsk", ".fuzix/emulator_work/disks/drivea.dsk"));
    assert_eq!((s[4].kind, s[4].from.as_str(), s[4].to.as_str()), (StepKind::LinkRequired, "/p/root.img", ".fuzix/emulator_work/disks/drivei.dsk"));
    let s = r.workdir_steps("68knano", "/p/root.img", "/p/boot.dsk");
    assert_eq!(s.len(), 3);
    assert_eq!((s[2].kind, s[2].from.as_str(), s[2].to.as_str()), (StepKind::Link, "/p/root.img", ".fuzix/emulator_work/68knano.ide"));
    assert!(r.workdir_steps("rc2014", "/p/root.img", "/p/boot.dsk").is_empty());
}

#[test]
fn leading_lines_without_the_command_are_ignored() {
    let log = "# ls\r\nfoo\r\n# shutdown\r\n";
    let noisy = format!("{}{}", "boot messages\r\nlogin: root\r\n", log);
    assert_eq!(extract_program_output(&noisy, "ls"), extract_program_output(log, "ls"));
    assert_eq!(extract_program_output(log, "ls"), "foo");
}

#[test]
fn command_equal_to_a_login_answer_is_typed_once() {
    let mut s = Session::new();
    let st = s.step("login: ", "root");
    assert_eq!(st.replies, vec!["root\r".to_string()]);
    assert!(!s.command_sent);
    let st = s.step("# ", "root");
    assert_eq!(st.replies, vec!["root\r".to_string()]);
    assert!(s.command_sent);
    let st = s.step("root\r\n# ", "root");
    assert_eq!(st.replies, vec!["shutdown\r".to_string()]);
    let st = s.step("# shutdown\r\nHalted", "root");
    assert!(st.replies.is_empty() && st.halt);
}
