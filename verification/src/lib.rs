//! Renaming without overwriting, decided here and carried out elsewhere.
//!
//! To rename a file unless something is at the destination takes one call
//! that the operating system carries out as a whole; to look first and
//! rename then leaves a moment in which something may appear at the
//! destination and be overwritten. This library knows which call each
//! platform has for it, how its paths are encoded, what its return value
//! means, on which kernels and file systems it works, and when to fall back
//! on looking first.
//!
//! It makes no call itself. Each operation is a function from its
//! arguments and the answers received so far to a [`Step`]: the next thing
//! to ask for, or the result. Its caller asks, keeps the answer, and calls
//! again with it.
//!
//! The operations of this module are the same on every platform and ask
//! for a [`Task`]; those of [`linux`], [`macos`] and [`windows`] carry out
//! two of the tasks and ask for a [`Call`].

pub mod call;
pub mod error;
pub mod linux;
pub mod macos;
pub mod version;
pub mod windows;

pub use call::{Call, Returned, Step};
pub use error::{Error, Kind};
pub use version::Version;

use vstd::prelude::*;

verus! {

/// What an operation of this module asks its caller to do.
#[derive(Clone, Copy, Debug, PartialEq, Eq, Structural)]
pub enum Task {
    /// Carry out the platform's exclusive rename of the source to the
    /// destination, and report how it ended.
    Invoke,
    /// Carry out the platform's probe at the path, and report its verdict.
    Probe,
    /// Find out whether the destination exists, following symbolic links.
    TryExists,
    /// Rename the source to the destination, replacing what may be there.
    Rename,
}

/// The step of the exclusive rename: where no native call for it is
/// linked, it is unsupported; otherwise the platform's call is made, and
/// how it ended is the result.
pub open spec fn rename_step(linked: bool, invoked: Option<Result<(), Error>>) -> Step<Task, ()> {
    if !linked {
        Step::Done(Err(Error::Unsupported))
    } else {
        match invoked {
            None => Step::Ask(Task::Invoke),
            Some(result) => Step::Done(result),
        }
    }
}

/// Renames a file without overwriting the destination path if it exists.
///
/// `linked` says whether this build has a native call for it; `invoked` is
/// how that call ended, once it has been made. Where the call fails because
/// something is at the destination, so does this, with
/// [`Error::AlreadyExists`]; where there is no call, with
/// [`Error::Unsupported`].
pub fn rename_exclusive(linked: bool, invoked: Option<Result<(), Error>>) -> (step: Step<Task, ()>)
    ensures
        step == rename_step(linked, invoked),
{
    if !linked {
        return Step::Done(Err(Error::Unsupported));
    }
    match invoked {
        None => Step::Ask(Task::Invoke),
        Some(result) => Step::Done(result),
    }
}

/// The step of the probe: where no native call is linked, the rename is not
/// atomic; otherwise the platform's probe is made, and its verdict is the
/// result.
pub open spec fn atomic_step(linked: bool, probed: Option<Result<bool, Error>>) -> Step<
    Task,
    bool,
> {
    if !linked {
        Step::Done(Ok(false))
    } else {
        match probed {
            None => Step::Ask(Task::Probe),
            Some(verdict) => Step::Done(verdict),
        }
    }
}

/// Determines whether an atomic [`rename_exclusive`] is supported.
///
/// `linked` says whether this build has a native call for the rename;
/// `probed` is the verdict of the platform's probe, once it has been made.
pub fn rename_exclusive_is_atomic(linked: bool, probed: Option<Result<bool, Error>>) -> (step: Step<
    Task,
    bool,
>)
    ensures
        step == atomic_step(linked, probed),
{
    if !linked {
        return Step::Done(Ok(false));
    }
    match probed {
        None => Step::Ask(Task::Probe),
        Some(verdict) => Step::Done(verdict),
    }
}

/// The step of the rename that looks first: find out whether the
/// destination exists; if it does, fail; if it does not, rename, and how
/// that ended is the result.
pub open spec fn non_atomic_step(
    exists: Option<Result<bool, Error>>,
    renamed: Option<Result<(), Error>>,
) -> Step<Task, ()> {
    match exists {
        None => Step::Ask(Task::TryExists),
        Some(Err(error)) => Step::Done(Err(error)),
        Some(Ok(true)) => Step::Done(Err(Error::AlreadyExists)),
        Some(Ok(false)) => match renamed {
            None => Step::Ask(Task::Rename),
            Some(result) => Step::Done(result),
        },
    }
}

/// Renames a file unless the destination was found to exist just before.
///
/// This is not atomic: what appears at the destination after the look and
/// before the rename is overwritten. `exists` and `renamed` are the answers
/// to the two tasks this asks for, as far as they have been carried out.
pub fn rename_exclusive_non_atomic(
    exists: Option<Result<bool, Error>>,
    renamed: Option<Result<(), Error>>,
) -> (step: Step<Task, ()>)
    ensures
        step == non_atomic_step(exists, renamed),
{
    match exists {
        None => Step::Ask(Task::TryExists),
        Some(Err(error)) => Step::Done(Err(error)),
        Some(Ok(true)) => Step::Done(Err(Error::AlreadyExists)),
        Some(Ok(false)) => match renamed {
            None => Step::Ask(Task::Rename),
            Some(result) => Step::Done(result),
        },
    }
}

/// The step of the rename with a fallback: the exclusive rename first; if
/// it succeeds the result is `true`; if it is unsupported, the rename that
/// looks first, with the result `false` if that succeeds; every other
/// failure of either is the result.
pub open spec fn fallback_step(
    linked: bool,
    invoked: Option<Result<(), Error>>,
    exists: Option<Result<bool, Error>>,
    renamed: Option<Result<(), Error>>,
) -> Step<Task, bool> {
    match rename_step(linked, invoked) {
        Step::Ask(task) => Step::Ask(task),
        Step::Done(Ok(_)) => Step::Done(Ok(true)),
        Step::Done(Err(Error::Unsupported)) => match non_atomic_step(exists, renamed) {
            Step::Ask(task) => Step::Ask(task),
            Step::Done(Ok(_)) => Step::Done(Ok(false)),
            Step::Done(Err(error)) => Step::Done(Err(error)),
        },
        Step::Done(Err(error)) => Step::Done(Err(error)),
    }
}

/// Renames a file without overwriting the destination path if it exists,
/// using a non-atomic fallback if necessary.
///
/// The result says whether the rename was atomic: `true` where the
/// destination was certainly not overwritten, `false` where it was found
/// not to exist just before. The arguments are those of
/// [`rename_exclusive`] and [`rename_exclusive_non_atomic`].
pub fn rename_exclusive_fallback(
    linked: bool,
    invoked: Option<Result<(), Error>>,
    exists: Option<Result<bool, Error>>,
    renamed: Option<Result<(), Error>>,
) -> (step: Step<Task, bool>)
    ensures
        step == fallback_step(linked, invoked, exists, renamed),
{
    match rename_exclusive(linked, invoked) {
        Step::Ask(task) => Step::Ask(task),
        Step::Done(Ok(_)) => Step::Done(Ok(true)),
        Step::Done(Err(error)) => {
            if error == Error::Unsupported {
                match rename_exclusive_non_atomic(exists, renamed) {
                    Step::Ask(task) => Step::Ask(task),
                    Step::Done(Ok(_)) => Step::Done(Ok(false)),
                    Step::Done(Err(error)) => Step::Done(Err(error)),
                }
            } else {
                Step::Done(Err(error))
            }
        },
    }
}

/// No native call is asked for where none is linked: the exclusive rename
/// is then unsupported and the probe says no, whatever answers are handed
/// in, and the fallback goes on to look first.
pub proof fn lemma_unlinked_is_never_invoked(
    invoked: Option<Result<(), Error>>,
    probed: Option<Result<bool, Error>>,
    exists: Option<Result<bool, Error>>,
    renamed: Option<Result<(), Error>>,
)
    ensures
        rename_step(false, invoked) == Step::<Task, ()>::Done(Err(Error::Unsupported)),
        atomic_step(false, probed) == Step::<Task, bool>::Done(Ok(false)),
        fallback_step(false, invoked, exists, renamed) != Step::<Task, bool>::Ask(Task::Invoke),
        fallback_step(false, invoked, exists, renamed) != Step::<Task, bool>::Done(Ok(true)),
{
}

/// A destination that the native call found to exist is reported as such
/// by the exclusive rename and by the fallback alike, and the fallback asks
/// for nothing more.
pub proof fn lemma_existing_destination_is_reported(
    exists: Option<Result<bool, Error>>,
    renamed: Option<Result<(), Error>>,
)
    ensures
        rename_step(true, Some(Err(Error::AlreadyExists))) == Step::<Task, ()>::Done(
            Err(Error::AlreadyExists),
        ),
        fallback_step(true, Some(Err(Error::AlreadyExists)), exists, renamed) == Step::<
            Task,
            bool,
        >::Done(Err(Error::AlreadyExists)),
{
}

/// A destination that was found to exist is never renamed over: the rename
/// that looks first then fails with `AlreadyExists` whatever else is known,
/// and so the fallback neither asks for the rename nor reports success
/// without atomicity.
pub proof fn lemma_found_destination_is_kept(
    linked: bool,
    invoked: Option<Result<(), Error>>,
    renamed: Option<Result<(), Error>>,
)
    ensures
        non_atomic_step(Some(Ok(true)), renamed) == Step::<Task, ()>::Done(
            Err(Error::AlreadyExists),
        ),
        fallback_step(linked, invoked, Some(Ok(true)), renamed) != Step::<Task, bool>::Ask(
            Task::Rename,
        ),
        fallback_step(linked, invoked, Some(Ok(true)), renamed) != Step::<Task, bool>::Done(
            Ok(false),
        ),
{
}

/// Where the destination was found not to exist, the rename that looks
/// first reports how its rename ended exactly as the exclusive rename
/// reports how its call ended.
pub proof fn lemma_non_atomic_reports_like_atomic(result: Result<(), Error>)
    ensures
        non_atomic_step(Some(Ok(false)), Some(result)) == rename_step(true, Some(result)),
{
}

/// The fallback recovers from `Unsupported` and from nothing else: any
/// other failure of the exclusive rename is its result, whatever the look
/// or the rename would say.
pub proof fn lemma_fallback_recovers_only_from_unsupported(
    error: Error,
    exists: Option<Result<bool, Error>>,
    renamed: Option<Result<(), Error>>,
)
    requires
        error != Error::Unsupported,
    ensures
        fallback_step(true, Some(Err(error)), exists, renamed) == Step::<Task, bool>::Done(
            Err(error),
        ),
{
}

/// When the fallback reports success, the flag tells the two ways apart:
/// `true` exactly where the native call succeeded, `false` exactly where
/// the exclusive rename was unsupported, the destination was found not to
/// exist, and the rename succeeded.
pub proof fn lemma_fallback_flag(
    linked: bool,
    invoked: Option<Result<(), Error>>,
    exists: Option<Result<bool, Error>>,
    renamed: Option<Result<(), Error>>,
)
    ensures
        fallback_step(linked, invoked, exists, renamed) == Step::<Task, bool>::Done(Ok(true)) <==> (
        linked && invoked matches Some(Ok(_))),
        fallback_step(linked, invoked, exists, renamed) == Step::<Task, bool>::Done(Ok(false))
            <==> ((!linked || invoked == Some(Err::<(), Error>(Error::Unsupported))) && exists
            == Some(Ok::<bool, Error>(false)) && renamed matches Some(Ok(_))),
{
}

/// The fallback reports `Unsupported` only where the look or the rename
/// itself failed with it, never because the atomic call is missing.
pub proof fn lemma_fallback_hides_unsupported(
    linked: bool,
    invoked: Option<Result<(), Error>>,
    exists: Option<Result<bool, Error>>,
    renamed: Option<Result<(), Error>>,
)
    requires
        fallback_step(linked, invoked, exists, renamed) == Step::<Task, bool>::Done(
            Err(Error::Unsupported),
        ),
    ensures
        exists == Some(Err::<bool, Error>(Error::Unsupported)) || renamed == Some(
            Err::<(), Error>(Error::Unsupported),
        ),
{
}

/// Nothing is asked for twice: a task is asked for only while its answer is
/// missing, so every answer handed in moves the operation on, and the
/// fallback ends after three tasks at most.
pub proof fn lemma_asks_only_for_what_is_missing(
    linked: bool,
    invoked: Option<Result<(), Error>>,
    probed: Option<Result<bool, Error>>,
    exists: Option<Result<bool, Error>>,
    renamed: Option<Result<(), Error>>,
)
    ensures
        rename_step(linked, invoked) is Ask ==> rename_step(linked, invoked) == Step::<
            Task,
            (),
        >::Ask(Task::Invoke) && invoked is None,
        atomic_step(linked, probed) is Ask ==> atomic_step(linked, probed) == Step::<
            Task,
            bool,
        >::Ask(Task::Probe) && probed is None,
        non_atomic_step(exists, renamed) is Ask ==> (non_atomic_step(exists, renamed) == Step::<
            Task,
            (),
        >::Ask(Task::TryExists) && exists is None) || (non_atomic_step(exists, renamed)
            == Step::<Task, ()>::Ask(Task::Rename) && renamed is None),
        fallback_step(linked, invoked, exists, renamed) is Ask ==> (fallback_step(
            linked,
            invoked,
            exists,
            renamed,
        ) == Step::<Task, bool>::Ask(Task::Invoke) && invoked is None) || (fallback_step(
            linked,
            invoked,
            exists,
            renamed,
        ) == Step::<Task, bool>::Ask(Task::TryExists) && exists is None) || (fallback_step(
            linked,
            invoked,
            exists,
            renamed,
        ) == Step::<Task, bool>::Ask(Task::Rename) && renamed is None),
        invoked is Some && exists is Some && renamed is Some ==> fallback_step(
            linked,
            invoked,
            exists,
            renamed,
        ) is Done,
{
}


} // verus!
