//! Host-side library for the STM32 CAN bootloader tooling: frame model,
//! pit-diag stream decoders, firmware-image handling, the sector-aware
//! flash planner and the text/argument helpers the CLI and the desktop
//! front-end share.
pub mod app_control;
pub mod bootloader_fetch;
pub mod bytes;
pub mod cli;
pub mod firmware;
pub mod flash;
pub mod parse;
pub mod pit_diag;
pub mod protocol;
pub mod session;
pub mod studio;
pub mod text;
