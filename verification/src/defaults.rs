//! The sandbox commands and the sandbox profile that are used where the
//! environment names none.

use vstd::prelude::*;

verus! {

/// The sandbox command on Linux: the file system is read-only but for the
/// build script's output directory and `/tmp`, and there is no network.
pub const LINUX_DEFAULT_CMD: &'static str = "bwrap
    --ro-bind / /
    --dev-bind /dev /dev
    --bind {OUT_DIR} {OUT_DIR}
    --bind /tmp /tmp
    --unshare-net
    {}";

/// The sandbox command on macOS, which reads its rules from a profile.
pub const MACOS_DEFAULT_CMD: &'static str = "sandbox-exec -f {BUILD_WRAP_PROFILE_PATH} {}";

/// The sandbox profile on macOS: reading is allowed everywhere, writing in
/// `/dev`, the output directory and the temporary directories, and there is
/// no network.
pub const DEFAULT_PROFILE: &'static str = "(version 1)
(deny default)
(allow file-read*)                               ;; Allow read-only access everywhere
(allow file-write* (subpath \"/dev\"))             ;; Allow write access to /dev
(allow file-write* (subpath \"{OUT_DIR}\"))        ;; Allow write access to `OUT_DIR`
(allow file-write* (subpath \"{TMPDIR}\"))         ;; Allow write access to `TMPDIR`
(allow file-write* (subpath \"{PRIVATE_TMPDIR}\")) ;; Allow write access to `PRIVATE_TMPDIR` (see below)
(allow process-exec)                             ;; Allow `exec`
(allow process-fork)                             ;; Allow `fork`
(allow sysctl-read)                              ;; Allow reading kernel state
(deny network*)                                  ;; Deny network access
";

/// The sandbox command that is used where none is set: the one for Linux
/// if `linux` holds, else the one for macOS.
pub fn default_cmd(linux: bool) -> (cmd: &'static str)
    ensures
        cmd@ == if linux {
            LINUX_DEFAULT_CMD@
        } else {
            MACOS_DEFAULT_CMD@
        },
{
    if linux {
        LINUX_DEFAULT_CMD
    } else {
        MACOS_DEFAULT_CMD
    }
}

} // verus!
