//! The requests this library makes of the operating system, and the shape
//! of one step of an operation.
//!
//! Nothing here touches a file. An operation is a function from its
//! arguments, and from what the operating system has answered so far, to a
//! [`Step`]: either the next request to make, or the operation's result. The
//! caller makes the request, records the answer, and asks again.

use vstd::prelude::*;
use crate::error::Error;

verus! {

/// The attribute selection that `getattrlist` reads, field for field.
#[derive(Clone, Copy, Debug, PartialEq, Eq, Structural)]
pub struct AttrList {
    pub bitmapcount: u16,
    pub reserved: u16,
    pub commonattr: u32,
    pub volattr: u32,
    pub dirattr: u32,
    pub fileattr: u32,
    pub forkattr: u32,
}

/// One call into the operating system, with every argument it is made with.
/// Paths are in the encoding the call reads, terminator included.
#[derive(Debug, PartialEq, Eq)]
pub enum Call {
    /// Linux: `renameat2(old_dir_fd, old_path, new_dir_fd, new_path, flags)`.
    RenameAt2 { old_dir_fd: i32, old_path: Vec<u8>, new_dir_fd: i32, new_path: Vec<u8>, flags: u32 },
    /// Linux: read the whole file at `path`, which holds the kernel's
    /// version text.
    KernelVersion { path: &'static str },
    /// Linux: `statfs(path, buf)`.
    StatFs { path: Vec<u8> },
    /// Darwin: `renamex_np(from, to, flags)`.
    RenamexNp { from: Vec<u8>, to: Vec<u8>, flags: u32 },
    /// Darwin: `getattrlist(path, attr_list, attr_buf, attr_buf_size, options)`.
    GetAttrList { path: Vec<u8>, attr_list: AttrList, attr_buf_size: usize, options: u64 },
    /// Windows: `MoveFileExW(existing_file_name, new_file_name, flags)`.
    MoveFileExW { existing_file_name: Vec<u16>, new_file_name: Vec<u16>, flags: u32 },
}

/// A [`Call`] with its paths as sequences.
pub enum CallView {
    RenameAt2 { old_dir_fd: i32, old_path: Seq<u8>, new_dir_fd: i32, new_path: Seq<u8>, flags: u32 },
    KernelVersion { path: Seq<char> },
    StatFs { path: Seq<u8> },
    RenamexNp { from: Seq<u8>, to: Seq<u8>, flags: u32 },
    GetAttrList { path: Seq<u8>, attr_list: AttrList, attr_buf_size: usize, options: u64 },
    MoveFileExW { existing_file_name: Seq<u16>, new_file_name: Seq<u16>, flags: u32 },
}

impl View for Call {
    type V = CallView;

    open spec fn view(&self) -> CallView {
        match *self {
            Call::RenameAt2 { old_dir_fd, old_path, new_dir_fd, new_path, flags } => CallView::RenameAt2 {
                old_dir_fd,
                old_path: old_path@,
                new_dir_fd,
                new_path: new_path@,
                flags,
            },
            Call::KernelVersion { path } => CallView::KernelVersion { path: path@ },
            Call::StatFs { path } => CallView::StatFs { path: path@ },
            Call::RenamexNp { from, to, flags } => CallView::RenamexNp { from: from@, to: to@, flags },
            Call::GetAttrList { path, attr_list, attr_buf_size, options } => CallView::GetAttrList {
                path: path@,
                attr_list,
                attr_buf_size,
                options,
            },
            Call::MoveFileExW { existing_file_name, new_file_name, flags } => CallView::MoveFileExW {
                existing_file_name: existing_file_name@,
                new_file_name: new_file_name@,
                flags,
            },
        }
    }
}

/// What a native call handed back: its return value, and the error the
/// operating system had recorded last when it returned. The error means
/// something only where the return value signals a failure.
#[derive(Clone, Copy, Debug, PartialEq, Eq, Structural)]
pub struct Returned {
    pub ret: i32,
    pub error: Error,
}

/// One step of an operation: a request of kind `Q` to make next, or the
/// operation's result.
#[derive(Debug, PartialEq, Eq)]
pub enum Step<Q, T> {
    Ask(Q),
    Done(Result<T, Error>),
}

impl<T: View> View for Step<Call, T> {
    type V = Step<CallView, T::V>;

    open spec fn view(&self) -> Step<CallView, T::V> {
        match *self {
            Step::Ask(call) => Step::Ask(call@),
            Step::Done(Ok(value)) => Step::Done(Ok(value@)),
            Step::Done(Err(error)) => Step::Done(Err(error)),
        }
    }
}

/// A path as a C string: the same bytes and a terminating zero. A path that
/// holds a zero byte has none.
pub open spec fn c_string(path: Seq<u8>) -> Option<Seq<u8>> {
    if path.contains(0u8) {
        None
    } else {
        Some(path.push(0u8))
    }
}

/// Encodes a path for a call that reads C strings.
pub fn to_c_string(path: &[u8]) -> (encoded: Result<Vec<u8>, Error>)
    ensures
        match c_string(path@) {
            Some(string) => encoded is Ok && encoded->Ok_0@ == string,
            None => encoded == Err::<Vec<u8>, Error>(Error::InvalidPathEncoding),
        },
{
    let mut string: Vec<u8> = Vec::new();
    let mut at: usize = 0;
    while at < path.len()
        invariant
            at <= path@.len(),
            string@ == path@.subrange(0, at as int),
            forall|k: int| 0 <= k < at ==> path@[k] != 0u8,
        decreases path@.len() - at,
    {
        let byte: u8 = path[at];
        if byte == 0 {
            return Err(Error::InvalidPathEncoding);
        }
        string.push(byte);
        assert(string@ == path@.subrange(0, at as int + 1));
        at = at + 1;
    }
    assert(path@.subrange(0, at as int) == path@);
    string.push(0);
    Ok(string)
}

} // verus!
