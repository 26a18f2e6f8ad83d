pub mod bits;
pub mod block;
pub mod client;
pub mod boot;
pub mod bytes;
pub mod console;
pub mod enc;
pub mod errno;
pub mod fat32;
pub mod ffi;
pub mod file;
pub mod flags;
pub mod server;
pub mod shell;
pub mod syscall;
pub mod time;
pub mod tpm;
pub mod tpm_session;
pub mod tpm_tis;
pub mod utils;
