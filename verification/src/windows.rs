//! Windows: `MoveFileExW` without the flag that would replace an existing
//! file.

use vstd::prelude::*;
use crate::call::{Call, CallView, Returned, Step};
use crate::error::Error;

verus! {

/// The flags of the move: none, and so not the one that replaces what
/// exists, which is what makes the move exclusive.
pub const MOVE_FLAGS: u32 = 0;

/// A path as a wide string: the same units and a terminating zero. A path
/// that holds a zero unit has none.
pub open spec fn wide_string(path: Seq<u16>) -> Option<Seq<u16>> {
    if path.contains(0u16) {
        None
    } else {
        Some(path.push(0u16))
    }
}

/// Encodes a path for a call that reads wide strings.
pub fn to_wide(s: &[u16]) -> (encoded: Result<Vec<u16>, Error>)
    ensures
        match wide_string(s@) {
            Some(string) => encoded is Ok && encoded->Ok_0@ == string,
            None => encoded == Err::<Vec<u16>, Error>(Error::InvalidPathEncoding),
        },
{
    let mut wide: Vec<u16> = Vec::new();
    let mut at: usize = 0;
    while at < s.len()
        invariant
            at <= s@.len(),
            wide@ == s@.subrange(0, at as int),
            forall|k: int| 0 <= k < at ==> s@[k] != 0u16,
        decreases s@.len() - at,
    {
        let unit: u16 = s[at];
        if unit == 0 {
            return Err(Error::InvalidPathEncoding);
        }
        wide.push(unit);
        assert(wide@ == s@.subrange(0, at as int + 1));
        at = at + 1;
    }
    assert(s@.subrange(0, at as int) == s@);
    wide.push(0);
    Ok(wide)
}

/// How a Windows call that returns zero on failure ended.
pub open spec fn outcome(returned: Returned) -> Result<(), Error> {
    if returned.ret == 0 {
        Err(returned.error)
    } else {
        Ok(())
    }
}

/// The one step that an exclusive rename has left: with no answer yet, the
/// `MoveFileExW` call on both paths as wide strings, with no flags; with
/// the answer, what it says.
pub open spec fn rename_step(from: Seq<u16>, to: Seq<u16>, returned: Option<Returned>) -> Step<
    CallView,
    (),
> {
    match (wide_string(from), wide_string(to)) {
        (Some(existing_file_name), Some(new_file_name)) => match returned {
            None => Step::Ask(
                CallView::MoveFileExW { existing_file_name, new_file_name, flags: MOVE_FLAGS },
            ),
            Some(returned) => Step::Done(outcome(returned)),
        },
        _ => Step::Done(Err(Error::InvalidPathEncoding)),
    }
}

/// Renames `from` to `to` unless something is at `to`, in one `MoveFileExW`
/// call. `returned` is what that call handed back, once it has been made.
pub fn rename_exclusive(from: &[u16], to: &[u16], returned: Option<Returned>) -> (step: Step<
    Call,
    (),
>)
    ensures
        step@ == rename_step(from@, to@, returned),
{
    let existing_file_name = match to_wide(from) {
        Ok(path) => path,
        Err(error) => {
            return Step::Done(Err(error));
        },
    };
    let new_file_name = match to_wide(to) {
        Ok(path) => path,
        Err(error) => {
            return Step::Done(Err(error));
        },
    };
    match returned {
        None => Step::Ask(Call::MoveFileExW { existing_file_name, new_file_name, flags: MOVE_FLAGS }),
        Some(returned) => if returned.ret == 0 {
            Step::Done(Err(returned.error))
        } else {
            Step::Done(Ok(()))
        },
    }
}

/// Reports that the rename is atomic, whatever the path: the call is there,
/// and nothing says more of a given volume.
pub fn rename_exclusive_is_atomic(_path: &[u16]) -> (step: Step<Call, bool>)
    ensures
        step@ == Step::<CallView, bool>::Done(Ok(true)),
{
    // The call exists wherever this module is used. Whether a given volume
    // carries it out atomically is a question nothing here can answer.
    Step::Done(Ok(true))
}

} // verus!
