use crate::config::FuzixConfig;
use crate::paths::{join, join_spec};
use crate::plan::strings_view;
use crate::text::{concat2, concat3, str_eq};
use crate::toolchain::ToolchainManager;
use vstd::prelude::*;

verus! {

/// Builds FUZIX programs with the project's configuration and the installed
/// toolchain.
pub struct Compiler<'a> {
    pub config: &'a FuzixConfig,
    pub toolchain: &'a ToolchainManager,
}

/// Where one compilation puts its files.
#[derive(Debug, Clone)]
pub struct BuildLayout {
    /// The directory of finished binaries, `.fuzix/bin`.
    pub out_dir: String,
    /// The directory of intermediate files, `.fuzix/build/<stem>`.
    pub build_dir: String,
    /// The object file, `<build_dir>/<stem>.o`.
    pub obj_file: String,
    /// The linked binary before post-processing, `<build_dir>/<stem>.b1`.
    pub b1_file: String,
    /// The finished binary: the requested output, or `<out_dir>/<stem>`.
    pub final_out: String,
}

/// The name a build of a source file is known by: the file's stem, or `app`
/// when it has none.
pub open spec fn stem_or_default_spec(stem: Option<Seq<char>>) -> Seq<char> {
    match stem {
        Some(s) => s,
        None => "app"@,
    }
}

/// See [`stem_or_default_spec`].
pub fn stem_or_default(stem: Option<String>) -> (r: String)
    ensures
        r@ == stem_or_default_spec(crate::paths::opt_view(stem)),
{
    match stem {
        Some(s) => s,
        None => String::from_str("app"),
    }
}

/// The name a build of the source file `source` is known by (see
/// [`stem_or_default_spec`]), its stem as `Path::file_stem` gives it.
pub fn source_stem(source: &str) -> (r: String)
    ensures
        r@ == stem_or_default_spec(crate::paths::path_file_stem(source@)),
{
    stem_or_default(crate::paths::file_stem_of(source))
}

/// The files of the build named `stem`, with the finished binary at `output`
/// when one is given.
pub fn build_layout(stem: &str, output: Option<String>) -> (r: BuildLayout)
    ensures
        r.out_dir@ == join_spec(".fuzix"@, "bin"@),
        r.build_dir@ == join_spec(join_spec(".fuzix"@, "build"@), stem@),
        r.obj_file@ == join_spec(r.build_dir@, stem@ + ".o"@),
        r.b1_file@ == join_spec(r.build_dir@, stem@ + ".b1"@),
        r.final_out@ == match output {
            Some(o) => o@,
            None => join_spec(r.out_dir@, stem@),
        },
{
    let out_dir = join(".fuzix", "bin");
    let final_out = match output {
        Some(o) => o,
        None => join(out_dir.as_str(), stem),
    };
    let b = join(".fuzix", "build");
    let build_dir = join(b.as_str(), stem);
    let obj_name = concat2(stem, ".o");
    let b1_name = concat2(stem, ".b1");
    let obj_file = join(build_dir.as_str(), obj_name.as_str());
    let b1_file = join(build_dir.as_str(), b1_name.as_str());
    BuildLayout { out_dir, build_dir, obj_file, b1_file, final_out }
}

/// Whether a binary built for `cpu` gets the `binman85` post-processing step
/// (given that the tool is installed): the 8080, 8085 and Z80 targets do.
pub fn needs_binman(cpu: &str, binman_present: bool) -> (r: bool)
    ensures
        r == ((cpu@ == "8080"@ || cpu@ == "8085"@ || cpu@ == "z80"@) && binman_present),
{
    (str_eq(cpu, "8080") || str_eq(cpu, "8085") || str_eq(cpu, "z80")) && binman_present
}

impl<'a> Compiler<'a> {
    /// A compiler for `config` with `toolchain`.
    pub fn new(config: &'a FuzixConfig, toolchain: &'a ToolchainManager) -> (r: Self)
        ensures
            *r.config == *config,
            *r.toolchain == *toolchain,
    {
        Compiler { config, toolchain }
    }

    /// The target CPU.
    pub open spec fn cpu(&self) -> Seq<char> {
        self.config.target.cpu@
    }

    /// The runtime directory of the toolchain.
    pub open spec fn runtime(&self) -> Seq<char> {
        self.toolchain.runtime_dir_spec()
    }

    /// The arguments to `fcc` that compile `source` into the object file `obj`;
    /// `FUZIX_ROOT` is set to the runtime directory for the call.
    pub fn compile_args(&self, source: &str, obj: &str) -> (r: Vec<String>)
        ensures
            strings_view(r@) == seq![
                "-m"@ + self.cpu(),
                "-Os"@,
                "-D__STDC__"@,
                "-c"@,
                "-I"@ + join_spec(self.runtime(), "include"@),
                "-I"@ + join_spec(join_spec(self.runtime(), "include"@), self.cpu()),
                source@,
                "-o"@,
                obj@,
            ],
    {
        let cpu = self.config.target.cpu.as_str();
        let runtime = self.toolchain.runtime_dir();
        let headers = join(runtime.as_str(), "include");
        let cpu_headers = join(headers.as_str(), cpu);
        let mut r: Vec<String> = Vec::new();
        r.push(concat2("-m", cpu));
        r.push(String::from_str("-Os"));
        r.push(String::from_str("-D__STDC__"));
        r.push(String::from_str("-c"));
        r.push(concat2("-I", headers.as_str()));
        r.push(concat2("-I", cpu_headers.as_str()));
        r.push(String::from_str(source));
        r.push(String::from_str("-o"));
        r.push(String::from_str(obj));
        assert(strings_view(r@) =~= seq![
            "-m"@ + self.cpu(),
            "-Os"@,
            "-D__STDC__"@,
            "-c"@,
            "-I"@ + join_spec(self.runtime(), "include"@),
            "-I"@ + join_spec(join_spec(self.runtime(), "include"@), self.cpu()),
            source@,
            "-o"@,
            obj@,
        ]);
        r
    }

    /// The C runtime start-up object for the target CPU.
    pub fn crt0_path(&self) -> (r: String)
        ensures
            r@ == join_spec(join_spec(self.runtime(), "libs"@), "crt0_"@ + self.cpu() + ".o"@),
    {
        let runtime = self.toolchain.runtime_dir();
        let libs = join(runtime.as_str(), "libs");
        let name = concat3("crt0_", self.config.target.cpu.as_str(), ".o");
        join(libs.as_str(), name.as_str())
    }

    /// The `binman85` post-processing tool.
    pub fn binman_path(&self) -> (r: String)
        ensures
            r@ == join_spec(join_spec(self.runtime(), "tools"@), "binman85"@),
    {
        let runtime = self.toolchain.runtime_dir();
        let tools = join(runtime.as_str(), "tools");
        join(tools.as_str(), "binman85")
    }

    /// The arguments to `fcc` that link the object file `obj` into `b1`, with
    /// the start-up object first when it is installed.
    pub fn link_args(&self, obj: &str, b1: &str, crt0_present: bool) -> (r: Vec<String>)
        ensures
            strings_view(r@) == seq!["-s"@, "-m"@ + self.cpu()] + (if crt0_present {
                seq![join_spec(join_spec(self.runtime(), "libs"@), "crt0_"@ + self.cpu() + ".o"@)]
            } else {
                Seq::empty()
            }) + seq![
                obj@,
                "-o"@,
                b1@,
                "-M"@,
                "-L"@ + join_spec(self.runtime(), "libs"@),
                "-lc"@ + self.cpu(),
                "-lc"@ + self.cpu(),
            ],
    {
        let cpu = self.config.target.cpu.as_str();
        let runtime = self.toolchain.runtime_dir();
        let libs = join(runtime.as_str(), "libs");
        let mut r: Vec<String> = Vec::new();
        r.push(String::from_str("-s"));
        r.push(concat2("-m", cpu));
        if crt0_present {
            r.push(self.crt0_path());
        }
        r.push(String::from_str(obj));
        r.push(String::from_str("-o"));
        r.push(String::from_str(b1));
        r.push(String::from_str("-M"));
        r.push(concat2("-L", libs.as_str()));
        r.push(concat2("-lc", cpu));
        r.push(concat2("-lc", cpu));
        assert(strings_view(r@) =~= seq!["-s"@, "-m"@ + self.cpu()] + (if crt0_present {
            seq![join_spec(join_spec(self.runtime(), "libs"@), "crt0_"@ + self.cpu() + ".o"@)]
        } else {
            Seq::empty()
        }) + seq![
            obj@,
            "-o"@,
            b1@,
            "-M"@,
            "-L"@ + join_spec(self.runtime(), "libs"@),
            "-lc"@ + self.cpu(),
            "-lc"@ + self.cpu(),
        ]);
        r
    }

    /// The environment `make` runs in: the runtime's `fuzix` tree, the CPU, the
    /// compiler driver and the flags, library path, start-up object and
    /// libraries for the target CPU, in that order.
    pub fn make_env(&self) -> (r: Vec<(String, String)>)
        ensures
            r@.map_values(|p: (String, String)| (p.0@, p.1@)) == {
                let root = join_spec(self.runtime(), "fuzix"@);
                let cpu = self.cpu();
                seq![
                    ("FUZIX_ROOT"@, root),
                    ("FUZIX_CPU"@, cpu),
                    (
                        "FUZIX_CC"@,
                        join_spec(join_spec(self.toolchain.toolchain_dir_spec(), "bin"@), "fcc"@),
                    ),
                    (
                        "FUZIX_CFLAGS"@,
                        "-m"@ + cpu + " -Os -D__STDC__ -I"@ + join_spec(root, "include"@) + " -I"@
                            + join_spec(join_spec(root, "include"@), cpu),
                    ),
                    ("FUZIX_LDFLAGS"@, "-m"@ + cpu + " -L"@ + join_spec(root, "libs"@)),
                    ("FUZIX_CRT0"@, join_spec(join_spec(root, "libs"@), "crt0_"@ + cpu + ".o"@)),
                    ("FUZIX_LIBS"@, "-lc"@ + cpu + " -lc"@ + cpu),
                ]
            },
    {
        let cpu = self.config.target.cpu.as_str();
        let runtime = self.toolchain.runtime_dir();
        let root = join(runtime.as_str(), "fuzix");
        let headers = join(root.as_str(), "include");
        let cpu_headers = join(headers.as_str(), cpu);
        let libs = join(root.as_str(), "libs");
        let mut cflags = concat3("-m", cpu, " -Os -D__STDC__ -I");
        cflags.append(headers.as_str());
        cflags.append(" -I");
        cflags.append(cpu_headers.as_str());
        let mut ldflags = concat3("-m", cpu, " -L");
        ldflags.append(libs.as_str());
        let crt0_name = concat3("crt0_", cpu, ".o");
        let crt0 = join(libs.as_str(), crt0_name.as_str());
        let mut lib_flags = concat3("-lc", cpu, " -lc");
        lib_flags.append(cpu);
        let mut r: Vec<(String, String)> = Vec::new();
        r.push((String::from_str("FUZIX_ROOT"), root));
        r.push((String::from_str("FUZIX_CPU"), String::from_str(cpu)));
        r.push((String::from_str("FUZIX_CC"), self.toolchain.fcc_binary()));
        r.push((String::from_str("FUZIX_CFLAGS"), cflags));
        r.push((String::from_str("FUZIX_LDFLAGS"), ldflags));
        r.push((String::from_str("FUZIX_CRT0"), crt0));
        r.push((String::from_str("FUZIX_LIBS"), lib_flags));
        let ghost rootv = join_spec(self.runtime(), "fuzix"@);
        let ghost cpuv = self.cpu();
        assert(r@.map_values(|p: (String, String)| (p.0@, p.1@)) =~= seq![
            ("FUZIX_ROOT"@, rootv),
            ("FUZIX_CPU"@, cpuv),
            ("FUZIX_CC"@, join_spec(join_spec(self.toolchain.toolchain_dir_spec(), "bin"@), "fcc"@)),
            (
                "FUZIX_CFLAGS"@,
                "-m"@ + cpuv + " -Os -D__STDC__ -I"@ + join_spec(rootv, "include"@) + " -I"@
                    + join_spec(join_spec(rootv, "include"@), cpuv),
            ),
            ("FUZIX_LDFLAGS"@, "-m"@ + cpuv + " -L"@ + join_spec(rootv, "libs"@)),
            ("FUZIX_CRT0"@, join_spec(join_spec(rootv, "libs"@), "crt0_"@ + cpuv + ".o"@)),
            ("FUZIX_LIBS"@, "-lc"@ + cpuv + " -lc"@ + cpuv),
        ]);
        r
    }
}

} // verus!
