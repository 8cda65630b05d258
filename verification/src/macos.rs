//! Darwin: `renamex_np` with `RENAME_EXCL`, and the probe that reads the
//! volume's capabilities through `getattrlist`.

use vstd::prelude::*;
use crate::call::{c_string, to_c_string, AttrList, Call, CallView, Returned, Step};
use crate::error::Error;

verus! {

/// Makes `renamex_np` fail rather than replace what is at the new path.
pub const RENAME_EXCL: u32 = 4;

/// The number of attribute groups in an attribute list.
pub const ATTR_BIT_MAP_COUNT: u16 = 5;

/// Selects the volume's capabilities among the volume attributes.
pub const ATTR_VOL_CAPABILITIES: u32 = 0x00020000;

/// The index of the interfaces word in a capability set.
pub const VOL_CAPABILITIES_INTERFACES: usize = 1;

/// The bit of the interfaces word that stands for exclusive renames.
pub const VOL_CAP_INT_RENAME_EXCL: u32 = 0x00080000;

/// The size in bytes of the buffer that the capabilities are written to:
/// a length and two sets of four words.
pub const ATTRIBUTE_BUF_SIZE: usize = 36;

/// The capabilities of a volume, and which of them the volume knows of.
#[derive(Clone, Copy, Debug, PartialEq, Eq)]
pub struct VolCapabilitiesAttr {
    pub capabilities: [u32; 4],
    pub valid: [u32; 4],
}

/// The buffer that `getattrlist` fills when it is asked for the volume's
/// capabilities alone.
#[derive(Clone, Copy, Debug, PartialEq, Eq)]
pub struct AttributeBuf {
    pub length: u32,
    pub volume: VolCapabilitiesAttr,
}

/// What `getattrlist` handed back: how it returned, and the buffer, which
/// means something only where it did not fail.
#[derive(Clone, Copy, Debug, PartialEq, Eq)]
pub struct GetAttrListReturned {
    pub returned: Returned,
    pub buf: AttributeBuf,
}

/// How a Darwin call that returns `-1` on failure ended.
pub open spec fn outcome(returned: Returned) -> Result<(), Error> {
    if returned.ret == -1 {
        Err(returned.error)
    } else {
        Ok(())
    }
}

/// The one step that an exclusive rename has left: with no answer yet, the
/// `renamex_np` call on both paths as C strings with the exclusive flag;
/// with the answer, what it says.
pub open spec fn rename_step(from: Seq<u8>, to: Seq<u8>, returned: Option<Returned>) -> Step<
    CallView,
    (),
> {
    match (c_string(from), c_string(to)) {
        (Some(from), Some(to)) => match returned {
            None => Step::Ask(CallView::RenamexNp { from, to, flags: RENAME_EXCL }),
            Some(returned) => Step::Done(outcome(returned)),
        },
        _ => Step::Done(Err(Error::InvalidPathEncoding)),
    }
}

/// Renames `from` to `to` unless something is at `to`, in one `renamex_np`
/// call. `returned` is what that call handed back, once it has been made.
pub fn rename_exclusive(from: &[u8], to: &[u8], returned: Option<Returned>) -> (step: Step<
    Call,
    (),
>)
    ensures
        step@ == rename_step(from@, to@, returned),
{
    let from = match to_c_string(from) {
        Ok(path) => path,
        Err(error) => {
            return Step::Done(Err(error));
        },
    };
    let to = match to_c_string(to) {
        Ok(path) => path,
        Err(error) => {
            return Step::Done(Err(error));
        },
    };
    match returned {
        None => Step::Ask(Call::RenamexNp { from, to, flags: RENAME_EXCL }),
        Some(returned) => if returned.ret == -1 {
            Step::Done(Err(returned.error))
        } else {
            Step::Done(Ok(()))
        },
    }
}

/// The attribute list that selects the volume's capabilities and nothing
/// else.
pub open spec fn volume_capabilities() -> AttrList {
    AttrList {
        bitmapcount: ATTR_BIT_MAP_COUNT,
        reserved: 0,
        commonattr: 0,
        volattr: ATTR_VOL_CAPABILITIES,
        dirattr: 0,
        fileattr: 0,
        forkattr: 0,
    }
}

/// Whether a volume with these capabilities renames exclusively: the bit
/// for it is set in the interfaces word.
pub open spec fn renames_exclusively(buf: AttributeBuf) -> bool {
    buf.volume.capabilities[VOL_CAPABILITIES_INTERFACES as int] & VOL_CAP_INT_RENAME_EXCL != 0
}

/// The step of the probe: the `getattrlist` call on the path as a C string,
/// for the volume's capabilities, into a buffer of their size and with no
/// options; then the verdict unless the call returned `-1`.
pub open spec fn atomic_step(path: Seq<u8>, answer: Option<GetAttrListReturned>) -> Step<
    CallView,
    bool,
> {
    match c_string(path) {
        Some(path) => match answer {
            None => Step::Ask(
                CallView::GetAttrList {
                    path,
                    attr_list: volume_capabilities(),
                    attr_buf_size: ATTRIBUTE_BUF_SIZE,
                    options: 0,
                },
            ),
            Some(answer) => match outcome(answer.returned) {
                Ok(_) => Step::Done(Ok(renames_exclusively(answer.buf))),
                Err(error) => Step::Done(Err(error)),
            },
        },
        None => Step::Done(Err(Error::InvalidPathEncoding)),
    }
}

/// Determines whether the volume that holds `path` renames exclusively.
/// `answer` is what the `getattrlist` call handed back, once it has been
/// made.
pub fn rename_exclusive_is_atomic(path: &[u8], answer: Option<GetAttrListReturned>) -> (step: Step<
    Call,
    bool,
>)
    ensures
        step@ == atomic_step(path@, answer),
{
    let path = match to_c_string(path) {
        Ok(path) => path,
        Err(error) => {
            return Step::Done(Err(error));
        },
    };
    let attr_list = AttrList {
        bitmapcount: ATTR_BIT_MAP_COUNT,
        reserved: 0,
        commonattr: 0,
        volattr: ATTR_VOL_CAPABILITIES,
        dirattr: 0,
        fileattr: 0,
        forkattr: 0,
    };
    match answer {
        None => Step::Ask(
            Call::GetAttrList { path, attr_list, attr_buf_size: ATTRIBUTE_BUF_SIZE, options: 0 },
        ),
        Some(answer) => {
            if answer.returned.ret == -1 {
                return Step::Done(Err(answer.returned.error));
            }
            let capabilities: u32 = answer.buf.volume.capabilities[VOL_CAPABILITIES_INTERFACES];
            Step::Done(Ok(capabilities & VOL_CAP_INT_RENAME_EXCL != 0))
        },
    }
}

} // verus!
