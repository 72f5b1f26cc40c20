use fuzix::compiler::{build_layout, needs_binman, source_stem, stem_or_default, Compiler};
use fuzix::config::FuzixConfig;
use fuzix::toolchain::ToolchainManager;

fn setup(cpu: &str) -> (FuzixConfig, ToolchainManager) {
    let mut c = FuzixConfig::default();
    c.target.cpu = cpu.to_string();
    let t = ToolchainManager::from_parts("r", "latest", "linux", "x86_64", Some("/h".to_string())).unwrap();
    (c, t)
}

fn strs(v: &[&str]) -> Vec<String> {
    v.iter().map(|s| s.to_string()).collect()
}

#[test]
fn compile_arguments() {
    let (c, t) = setup("68000");
    let comp = Compiler::new(&c, &t);
    assert_eq!(
        comp.compile_args("hello.c", ".fuzix/build/hello/hello.o"),
        strs(&[
            "-m68000",
            "-Os",
            "-D__STDC__",
            "-c",
            "-I/h/.fuzix/runtime/include",
            "-I/h/.fuzix/runtime/include/68000",
            "hello.c",
            "-o",
            ".fuzix/build/hello/hello.o"
        ])
    );
}

#[test]
fn link_arguments_with_and_without_crt0() {
    let (c, t) = setup("z80");
    let comp = Compiler::new(&c, &t);
    assert_eq!(comp.crt0_path(), "/h/.fuzix/runtime/libs/crt0_z80.o");
    assert_eq!(
        comp.link_args("a.o", "a.b1", true),
        strs(&["-s", "-mz80", "/h/.fuzix/runtime/libs/crt0_z80.o", "a.o", "-o", "a.b1", "-M", "-L/h/.fuzix/runtime/libs", "-lcz80", "-lcz80"])
    );
    assert_eq!(
        comp.link_args("a.o", "a.b1", false),
        strs(&["-s", "-mz80", "a.o", "-o", "a.b1", "-M", "-L/h/.fuzix/runtime/libs", "-lcz80", "-lcz80"])
    );
    assert_eq!(comp.binman_path(), "/h/.fuzix/runtime/tools/binman85");
}

#[test]
fn make_environment() {
    let (c, t) = setup("6809");
    let comp = Compiler::new(&c, &t);
    let env = comp.make_env();
    let expect = vec![
        ("FUZIX_ROOT", "/h/.fuzix/runtime/fuzix"),
        ("FUZIX_CPU", "6809"),
        ("FUZIX_CC", "/h/.fuzix/toolchain/linux-amd64/bin/fcc"),
        ("FUZIX_CFLAGS", "-m6809 -Os -D__STDC__ -I/h/.fuzix/runtime/fuzix/include -I/h/.fuzix/runtime/fuzix/include/6809"),
        ("FUZIX_LDFLAGS", "-m6809 -L/h/.fuzix/runtime/fuzix/libs"),
        ("FUZIX_CRT0", "/h/.fuzix/runtime/fuzix/libs/crt0_6809.o"),
        ("FUZIX_LIBS", "-lc6809 -lc6809"),
    ];
    let expect: Vec<(String, String)> = expect.into_iter().map(|(a, b)| (a.to_string(), b.to_string())).collect();
    assert_eq!(env, expect);
}

#[test]
fn build_layout_and_stem() {
    assert_eq!(source_stem("src/hello.c"), "hello");
    assert_eq!(source_stem("prog"), "prog");
    assert_eq!(stem_or_default(None), "app");
    let l = build_layout("hello", None);
    assert_eq!(l.out_dir, ".fuzix/bin");
    assert_eq!(l.build_dir, ".fuzix/build/hello");
    assert_eq!(l.obj_file, ".fuzix/build/hello/hello.o");
    assert_eq!(l.b1_file, ".fuzix/build/hello/hello.b1");
    assert_eq!(l.final_out, ".fuzix/bin/hello");
    let l = build_layout("hello", Some("out/h".to_string()));
    assert_eq!(l.final_out, "out/h");
}

#[test]
fn binman_only_for_8bit_intel_and_zilog() {
    assert!(needs_binman("8080", true));
    assert!(needs_binman("8085", true));
    assert!(needs_binman("z80", true));
    assert!(!needs_binman("z80", false));
    assert!(!needs_binman("68000", true));
    assert!(!needs_binman("6809", true));
}
