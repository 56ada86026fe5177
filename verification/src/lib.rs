//! Verified pieces of a small Raspberry Pi 4 kernel and of its typed register-access layer.
#![allow(non_camel_case_types)]

pub mod sys_timer;
pub mod gpio;
pub mod boot;
pub mod regs;
