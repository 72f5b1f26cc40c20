use crate::config::FuzixConfig;
use crate::disk::DiskManager;
use crate::emulator::EmulatorRunner;
use crate::paths::join_spec;
use crate::toolchain::ToolchainManager;
use vstd::prelude::*;

verus! {

/// The emulator an interactive session starts, and its binary.
#[derive(Debug, Clone)]
pub struct EmulatorLaunch {
    pub emulator: String,
    pub binary: String,
}

/// `fuzix shell`: the emulator to open an interactive session on (the
/// override when one is given, the configured one otherwise) and its binary.
pub fn execute(emulator_override: Option<String>, config: &FuzixConfig, toolchain: &ToolchainManager) -> (r:
    EmulatorLaunch)
    ensures
        r.emulator@ == match emulator_override {
            Some(e) => e@,
            None => config.target.emulator@,
        },
        r.binary@ == join_spec(toolchain.emulators_dir_spec(), r.emulator@),
{
    let disk = DiskManager::new(config, toolchain);
    let runner = EmulatorRunner::new(config, toolchain, &disk);
    let emulator = match &emulator_override {
        Some(e) => runner.emulator_name(Some(e.as_str())),
        None => runner.emulator_name(None),
    };
    let binary = toolchain.emulator_binary(emulator.as_str());
    EmulatorLaunch { emulator, binary }
}

} // verus!
