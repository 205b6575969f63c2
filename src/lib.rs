//! A single-tenant batch executor: it loads one application image at a time
//! into a fixed execution window, enters it at reduced privilege, and services
//! its system calls until the application table is exhausted.

pub mod batch;
pub mod config;
pub mod context;
pub mod stack;
pub mod syscall;
pub mod table;
