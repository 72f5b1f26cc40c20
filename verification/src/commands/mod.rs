//! The computing part of each `fuzix` subcommand.
pub mod build_plan;
pub mod disk;
pub mod emulators;
pub mod init;
pub mod run;
pub mod shell;
pub mod test;
