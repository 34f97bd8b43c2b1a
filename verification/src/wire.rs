//! Framed reading: a message arrives field by field, and after each field
//! the bytes read so far say how many the next field needs.

use vstd::prelude::*;
use crate::error::SocksError;
use crate::error::SocksErrorView;

verus! {

/// What the bytes read so far amount to.
#[derive(Clone, Debug, PartialEq, Eq)]
pub enum Progress<T> {
    /// The next field needs this many bytes more.
    Need(usize),
    /// The message is complete and holds this value.
    Complete(T),
    /// The fields read so far show this fault.
    Fail(SocksError),
}

/// Mathematical model of a [`Progress`].
pub enum Status<V> {
    Need(nat),
    Complete(V),
    Fail(SocksErrorView),
}

impl<T: View> View for Progress<T> {
    type V = Status<T::V>;

    open spec fn view(&self) -> Status<T::V> {
        match self {
            Progress::Need(n) => Status::Need(*n as nat),
            Progress::Complete(value) => Status::Complete(value@),
            Progress::Fail(error) => Status::Fail(error@),
        }
    }
}

} // verus!
