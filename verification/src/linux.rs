//! Linux: `renameat2` with `RENAME_NOREPLACE`, and the probe that reads the
//! kernel version and the file system's magic number.

use vstd::prelude::*;
use crate::call::{c_string, to_c_string, Call, CallView, Returned, Step};
use crate::error::Error;
use crate::version::{kernel_version, Triple, Version};

verus! {

/// Stands for the current working directory where a directory descriptor
/// is asked for.
pub const AT_FDCWD: i32 = -100;

/// Where the kernel reports its version.
pub const PROC_VERSION: &'static str = "/proc/version";

/// Makes `renameat2` fail rather than replace what is at the new path.
pub const RENAME_NOREPLACE: u32 = 1;

/// `EXT4_SUPER_MAGIC`, which ext2 and ext3 share.
pub const FS_EXT4: u32 = 0xef53;

/// `BTRFS_SUPER_MAGIC`.
pub const FS_BTRFS: u32 = 0x9123683e;

/// `BTRFS_TEST_MAGIC`.
pub const FS_BTRFS_TEST: u32 = 0x73727279;

/// `TMPFS_MAGIC`.
pub const FS_TMPFS: u32 = 0x01021994;

/// `CIFS_MAGIC_NUMBER`.
pub const FS_CIFS: u32 = 0xff534d42;

/// `XFS_SUPER_MAGIC`.
pub const FS_XFS: u32 = 0x58465342;

/// `EXT2_OLD_SUPER_MAGIC`.
pub const FS_EXT2: u32 = 0xef51;

/// `MINIX_SUPER_MAGIC`.
pub const FS_MINIX: u32 = 0x137f;

/// `MINIX_SUPER_MAGIC2`.
pub const FS_MINIX_2: u32 = 0x138f;

/// `MINIX2_SUPER_MAGIC`.
pub const FS_MINIX2: u32 = 0x2468;

/// `MINIX2_SUPER_MAGIC2`.
pub const FS_MINIX2_2: u32 = 0x2478;

/// `MINIX3_SUPER_MAGIC`.
pub const FS_MINIX3: u32 = 0x4d5a;

/// `REISERFS_SUPER_MAGIC`.
pub const FS_REISERFS: u32 = 0x52654973;

/// `JFS_SUPER_MAGIC`.
pub const FS_JFS: u32 = 0x3153464a;

/// What vfat reports; found by experiment, it is in no header.
pub const FS_VFAT: u32 = 0x7c7c6673;

/// `BPF_FS_MAGIC`.
pub const FS_BPF: u32 = 0xcafe4a11;

/// What `statfs` handed back: how it returned, and the magic number it
/// wrote, which means something only where it did not fail.
#[derive(Clone, Copy, Debug, PartialEq, Eq, Structural)]
pub struct StatFsReturned {
    pub returned: Returned,
    pub f_type: u32,
}

/// How a Linux call that returns `-1` on failure ended.
pub open spec fn outcome(returned: Returned) -> Result<(), Error> {
    if returned.ret == -1 {
        Err(returned.error)
    } else {
        Ok(())
    }
}

/// The one step that an exclusive rename has left: with no answer yet, the
/// `renameat2` call on both paths as C strings, relative to the current
/// directory, with the no-replace flag; with the answer, what it says.
pub open spec fn rename_step(from: Seq<u8>, to: Seq<u8>, returned: Option<Returned>) -> Step<
    CallView,
    (),
> {
    match (c_string(from), c_string(to)) {
        (Some(old_path), Some(new_path)) => match returned {
            None => Step::Ask(
                CallView::RenameAt2 {
                    old_dir_fd: AT_FDCWD,
                    old_path,
                    new_dir_fd: AT_FDCWD,
                    new_path,
                    flags: RENAME_NOREPLACE,
                },
            ),
            Some(returned) => Step::Done(outcome(returned)),
        },
        _ => Step::Done(Err(Error::InvalidPathEncoding)),
    }
}

/// Renames `from` to `to` unless something is at `to`, in one `renameat2`
/// call. `returned` is what that call handed back, once it has been made.
pub fn rename_exclusive(from: &[u8], to: &[u8], returned: Option<Returned>) -> (step: Step<
    Call,
    (),
>)
    ensures
        step@ == rename_step(from@, to@, returned),
{
    let old_path = match to_c_string(from) {
        Ok(path) => path,
        Err(error) => {
            return Step::Done(Err(error));
        },
    };
    let new_path = match to_c_string(to) {
        Ok(path) => path,
        Err(error) => {
            return Step::Done(Err(error));
        },
    };
    match returned {
        None => Step::Ask(
            Call::RenameAt2 {
                old_dir_fd: AT_FDCWD,
                old_path,
                new_dir_fd: AT_FDCWD,
                new_path,
                flags: RENAME_NOREPLACE,
            },
        ),
        Some(returned) => if returned.ret == -1 {
            Step::Done(Err(returned.error))
        } else {
            Step::Done(Ok(()))
        },
    }
}

/// The step towards the running kernel's version: ask for the version text,
/// then read the version from it. A failure to get the text is passed on.
pub open spec fn kernel_version_step(text: Option<Result<Vec<u8>, Error>>) -> Step<
    CallView,
    Triple,
> {
    match text {
        None => Step::Ask(CallView::KernelVersion { path: PROC_VERSION@ }),
        Some(Err(error)) => Step::Done(Err(error)),
        Some(Ok(text)) => match kernel_version(text@) {
            Some(version) => Step::Done(Ok(version)),
            None => Step::Done(Err(Error::DataFormat)),
        },
    }
}

/// Determines the running kernel's version. `text` is what the kernel's
/// version source held, or why it could not be read, once that is known.
pub fn get_kernel_version(text: &Option<Result<Vec<u8>, Error>>) -> (step: Step<Call, Version>)
    ensures
        step@ == kernel_version_step(*text),
{
    match text {
        None => Step::Ask(Call::KernelVersion { path: PROC_VERSION }),
        Some(Err(error)) => Step::Done(Err(*error)),
        Some(Ok(text)) => Step::Done(Version::parse(text.as_slice())),
    }
}

/// The step towards the magic number of the file system that holds `path`:
/// the `statfs` call on the path as a C string, then the number it wrote
/// unless it returned `-1`.
pub open spec fn filesystem_type_step(path: Seq<u8>, statfs: Option<StatFsReturned>) -> Step<
    CallView,
    u32,
> {
    match c_string(path) {
        Some(path) => match statfs {
            None => Step::Ask(CallView::StatFs { path }),
            Some(statfs) => match outcome(statfs.returned) {
                Ok(_) => Step::Done(Ok(statfs.f_type)),
                Err(error) => Step::Done(Err(error)),
            },
        },
        None => Step::Done(Err(Error::InvalidPathEncoding)),
    }
}

/// Determines the type of the file system that holds `path`. `statfs` is
/// what the `statfs` call handed back, once it has been made.
pub fn get_filesystem_type(path: &[u8], statfs: Option<StatFsReturned>) -> (step: Step<Call, u32>)
    ensures
        step@ == filesystem_type_step(path@, statfs),
{
    let path = match to_c_string(path) {
        Ok(path) => path,
        Err(error) => {
            return Step::Done(Err(error));
        },
    };
    match statfs {
        None => Step::Ask(Call::StatFs { path }),
        Some(statfs) => if statfs.returned.ret == -1 {
            Step::Done(Err(statfs.returned.error))
        } else {
            Step::Done(Ok(statfs.f_type))
        },
    }
}

/// Whether a kernel of version `kernel` renames exclusively on a file
/// system with the magic number `fs`: the kernel must be at least the one
/// that brought the flag to that file system.
pub open spec fn supported(kernel: Triple, fs: u32) -> bool {
    ||| kernel.at_least(Triple { major: 3, minor: 15, patch: 0 }) && fs == FS_EXT4
    ||| kernel.at_least(Triple { major: 3, minor: 17, patch: 0 }) && (fs == FS_BTRFS || fs
        == FS_BTRFS_TEST || fs == FS_TMPFS || fs == FS_CIFS)
    ||| kernel.at_least(Triple { major: 4, minor: 0, patch: 0 }) && fs == FS_XFS
    ||| kernel.at_least(Triple { major: 4, minor: 9, patch: 0 }) && (fs == FS_EXT2 || fs
        == FS_REISERFS || fs == FS_JFS || fs == FS_VFAT || fs == FS_BPF || fs == FS_MINIX || fs
        == FS_MINIX_2 || fs == FS_MINIX2 || fs == FS_MINIX2_2 || fs == FS_MINIX3)
}

/// The step of the probe: the kernel version first, then the file system
/// type, then the verdict. The first failure ends it.
pub open spec fn supported_step(
    path: Seq<u8>,
    text: Option<Result<Vec<u8>, Error>>,
    statfs: Option<StatFsReturned>,
) -> Step<CallView, bool> {
    match kernel_version_step(text) {
        Step::Ask(call) => Step::Ask(call),
        Step::Done(Err(error)) => Step::Done(Err(error)),
        Step::Done(Ok(kernel)) => match filesystem_type_step(path, statfs) {
            Step::Ask(call) => Step::Ask(call),
            Step::Done(Err(error)) => Step::Done(Err(error)),
            Step::Done(Ok(fs)) => Step::Done(Ok(supported(kernel, fs))),
        },
    }
}

/// Determines whether the kernel renames exclusively on the file system
/// that holds `path`. `text` and `statfs` are the answers to the two
/// requests this makes, as far as they have been made.
pub fn rename_exclusive_is_supported(
    path: &[u8],
    text: &Option<Result<Vec<u8>, Error>>,
    statfs: Option<StatFsReturned>,
) -> (step: Step<Call, bool>)
    ensures
        step@ == supported_step(path@, *text, statfs),
{
    let kernel = match get_kernel_version(text) {
        Step::Ask(call) => {
            return Step::Ask(call);
        },
        Step::Done(Err(error)) => {
            return Step::Done(Err(error));
        },
        Step::Done(Ok(kernel)) => kernel,
    };
    let fs = match get_filesystem_type(path, statfs) {
        Step::Ask(call) => {
            return Step::Ask(call);
        },
        Step::Done(Err(error)) => {
            return Step::Done(Err(error));
        },
        Step::Done(Ok(fs)) => fs,
    };

    // The man page for renameat2 says this:
    //
    //  - ext4 (Linux 3.15);
    //  - btrfs, tmpfs, and cifs (Linux 3.17);
    //  - xfs (Linux 4.0);
    //  - Support for many other filesystems was added in Linux 4.9, including
    //    ext2, minix, reiserfs, jfs, vfat, and bpf.

    if kernel.at_least(&Version::new(3, 15, 0)) {
        if fs == FS_EXT4 {
            return Step::Done(Ok(true));
        }
    }
    if kernel.at_least(&Version::new(3, 17, 0)) {
        if fs == FS_BTRFS || fs == FS_BTRFS_TEST || fs == FS_TMPFS || fs == FS_CIFS {
            return Step::Done(Ok(true));
        }
    }
    if kernel.at_least(&Version::new(4, 0, 0)) {
        if fs == FS_XFS {
            return Step::Done(Ok(true));
        }
    }
    if kernel.at_least(&Version::new(4, 9, 0)) {
        // The man page says "including", so this list may not be complete.
        if fs == FS_EXT2 || fs == FS_REISERFS || fs == FS_JFS || fs == FS_VFAT || fs == FS_BPF
            || fs == FS_MINIX || fs == FS_MINIX_2 || fs == FS_MINIX2 || fs == FS_MINIX2_2 || fs
            == FS_MINIX3 {
            return Step::Done(Ok(true));
        }
    }
    Step::Done(Ok(false))
}

/// A later kernel supports whatever an earlier one does.
pub proof fn lemma_later_kernels_support_more(earlier: Triple, later: Triple, fs: u32)
    requires
        later.at_least(earlier),
        supported(earlier, fs),
    ensures
        supported(later, fs),
{
}


/// The probe makes two requests at most, each once: it asks for the kernel
/// version only while it has none, for the file system type only while it
/// has none, and with both answers it is done.
pub proof fn lemma_probe_asks_only_for_what_is_missing(
    path: Seq<u8>,
    text: Option<Result<Vec<u8>, Error>>,
    statfs: Option<StatFsReturned>,
)
    ensures
        supported_step(path, text, statfs) is Ask ==> (supported_step(path, text, statfs)
            == Step::<CallView, bool>::Ask(CallView::KernelVersion { path: PROC_VERSION@ })
            && text is None) || (supported_step(path, text, statfs) == Step::<
            CallView,
            bool,
        >::Ask(CallView::StatFs { path: path.push(0u8) }) && statfs is None),
        text is Some && statfs is Some ==> supported_step(path, text, statfs) is Done,
{
}

} // verus!
