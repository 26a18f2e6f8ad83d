# s3k_fs

A FAT32 file server for the S3K separation kernel, with an optional encrypting block layer
whose key is sealed by a TPM, and a small shell that talks to the server over an IPC socket.

The logic is a Verus library (`src/`). Its functions are verified against their contracts,
except a few small trusted wrappers around outside code, whose contracts are taken as given:
the AES-XTS encryption of a sector (`xts-mode`), `String::from_utf8`, and the `BitVec`
methods of `bitvec-rs`. The library is laid out as follows:

- `ffi`, `syscall`, `utils`, `boot`: capabilities and their bit layouts, the kernel calls as
  requests, and the setup sequences that hand the shell process its memory, UART, socket and
  time, written as steps from one kernel answer to the next call.
- `fat32`: the boot sector, FSInfo and formatting, the FAT and cluster arithmetic, directory
  entries (short and long names, scanning, building the entries for a new name) and the
  bookkeeping of free directory slots.
- `enc`, `block`: the on-disk metadata of the encrypting layer, its states, and the AES-XTS
  encryption of each sector; partial sector reads and writes.
- `tpm`, `tpm_tis`, `tpm_session`: TPM 2.0 commands and responses, the TIS register exchanges
  and the sessions that seal and unseal the disk key.
- `server`, `client`, `file`, `shell`, `console`: the request protocol on both sides, seeking
  and directory positions, the table of open files, and the shell's command line.

`app/` holds what runs on the hardware: register access (UART, TPM, VirtIO), kernel calls,
the volume on the block device, and the server and shell loops. `tests/` runs the library on
concrete values.
