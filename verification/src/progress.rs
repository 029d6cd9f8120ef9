//! The answer of a run to a reply.

use crate::error::{AppError, AppErrorModel};
use vstd::prelude::*;

verus! {

/// What a run has become after a reply: a run that waits for its next action,
/// or the outcome of the operation.
#[derive(Debug)]
pub enum Progress<M, T> {
    Pending(M),
    Done(T),
}

impl<M: View, T: View> View for Progress<M, Result<T, AppError>> {
    type V = Progress<M::V, Result<T::V, AppErrorModel>>;

    open spec fn view(&self) -> Progress<M::V, Result<T::V, AppErrorModel>> {
        match *self {
            Progress::Pending(run) => Progress::Pending(run@),
            Progress::Done(Ok(value)) => Progress::Done(Ok(value@)),
            Progress::Done(Err(error)) => Progress::Done(Err(error@)),
        }
    }
}

/// The value of a progress says whether the run goes on, and has the value of the
/// run, of the outcome or of the error.
pub proof fn law_progress_is_its_value<M: View, T: View>(progress: Progress<M, Result<T, AppError>>)
    ensures
        match progress {
            Progress::Pending(run) => progress@ matches Progress::Pending(value) && value == run@,
            Progress::Done(Ok(outcome)) => progress@ matches Progress::Done(Ok(value)) && value
                == outcome@,
            Progress::Done(Err(error)) => progress@ matches Progress::Done(Err(value)) && value
                == error@,
        },
{
}

} // verus!
