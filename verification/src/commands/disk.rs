use crate::config::FuzixConfig;
use crate::disk::{DiskError, DiskManager, UcpJob};
use crate::paths::{opt_str_view, opt_view, path_file_name, path_parent};
use crate::paths::join_spec;
use crate::toolchain::ToolchainManager;
use vstd::prelude::*;

verus! {

/// `fuzix disk cp`: the `ucp` run that copies the host file `src` onto the
/// root image at `dest`, with mode `mode` when one is given (see
/// [`DiskManager::copy_job_spec`]).
pub fn execute_cp(
    src: String,
    dest: String,
    mode: Option<String>,
    config: &FuzixConfig,
    toolchain: &ToolchainManager,
) -> (r: Result<UcpJob, DiskError>)
    ensures
        (DiskManager { config, toolchain }).copy_job_spec(
            r,
            path_file_name(src@),
            path_parent(src@),
            dest@,
            path_parent(dest@),
            path_file_name(dest@),
            opt_view(mode),
        ),
{
    let disk = DiskManager::new(config, toolchain);
    let m: Option<&str> = match &mode {
        Some(m) => Some(m.as_str()),
        None => None,
    };
    assert(opt_str_view(m) == opt_view(mode));
    disk.copy_file(src.as_str(), dest.as_str(), m)
}

/// `fuzix disk ls`: the `ucp` run that lists the disk directory `path`
/// (`/bin` when none is given) of the root image.
pub fn execute_ls(path: Option<String>, config: &FuzixConfig, toolchain: &ToolchainManager) -> (r:
    UcpJob)
    ensures
        r.program@ == join_spec(toolchain.runtime_dir_spec(), "ucp"@),
        r.image@ == config.disk.root_image@,
        r.working_dir is None,
        r.script@ == "cd "@ + (match path {
            Some(p) => p@,
            None => "/bin"@,
        }) + "\nls -l\nexit\n"@,
{
    let disk = DiskManager::new(config, toolchain);
    let target = match path {
        Some(p) => p,
        None => String::from_str("/bin"),
    };
    disk.list_dir(target.as_str())
}

} // verus!
