//! Project logic of the `fuzix` developer tool: configuration defaults, toolchain
//! layout, compiler and linker invocations, disk-image maintenance plans and the
//! decisions that drive an emulator session.
pub mod text;
pub mod lines;
pub mod paths;
pub mod config;
pub mod plan;
pub mod toolchain;
pub mod archive;
pub mod compiler;
pub mod disk;
pub mod emulator;
pub mod commands;
