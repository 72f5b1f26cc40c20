use crate::config::FuzixConfig;
use vstd::prelude::*;

verus! {

/// The program `fuzix init` writes to `hello.c` when the project has none.
pub const SAMPLE_PROGRAM: &'static str = "#include <stdio.h>\n\nint main(int argc, char **argv) {\n    printf(\"Hello from FUZIX OS!\\n\");\n    for (int i = 1; i < argc; i++) {\n        printf(\"arg[%d] = %s\\n\", i, argv[i]);\n    }\n    return 0;\n}\n";

/// `fuzix init`: the configuration of a new project, the defaults with the
/// given name, CPU and emulator in place of theirs.
pub fn project_config(name: Option<String>, cpu: Option<String>, emulator: Option<String>) -> (r:
    FuzixConfig)
    ensures
        r.project.name@ == match name {
            Some(n) => n@,
            None => "fuzix-app"@,
        },
        r.target.cpu@ == match cpu {
            Some(c) => c@,
            None => "68000"@,
        },
        r.target.emulator@ == match emulator {
            Some(e) => e@,
            None => "v68"@,
        },
        r.project.version@ == "0.1.0"@,
        r.project.source@ == "hello.c"@,
        r.target.timeout == 45,
        r.disk.is_default(),
        r.toolchain.is_default(),
{
    let mut config = FuzixConfig::default();
    match name {
        Some(n) => {
            config.project.name = n;
        },
        None => {},
    }
    match cpu {
        Some(c) => {
            config.target.cpu = c;
        },
        None => {},
    }
    match emulator {
        Some(e) => {
            config.target.emulator = e;
        },
        None => {},
    }
    config
}

} // verus!
