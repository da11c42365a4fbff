//! The failures that the library reports.

use vstd::prelude::*;

verus! {

/// A wire or storage field did not have the form that its codec accepts.
#[derive(Clone, Copy, Debug, PartialEq, Eq, Structural)]
pub enum ValidationError {
    /// The text is not a time of day in the form `HH:MM:SS`.
    MalformedTime,
    /// The text is not accepted as a recurrence rule.
    MalformedRecurrence,
    /// The window does not start strictly before it ends.
    EmptyWindow,
}

/// A statement against the store did not succeed.
#[derive(Debug, PartialEq, Eq)]
pub enum StoreError {
    /// The statement had to touch one row and found none with the id.
    RowNotFound,
    /// The store has no unused id left for a new row.
    IdsExhausted,
    /// A stored row holds a field that its codec refuses.
    CorruptRow(ValidationError),
    /// The statement did not finish within its deadline.
    TimedOut,
    /// Any other failure of the store, with its own description of the cause.
    Backend(String),
}

impl StoreError {
    /// Whether the same statement may succeed when it is sent again: only
    /// after a deadline was missed. The library itself never sends again.
    pub fn is_retryable(&self) -> (r: bool)
        ensures
            r == (*self is TimedOut),
    {
        match self {
            StoreError::TimedOut => true,
            _ => false,
        }
    }
}

/// The failure that a handler reports to the transport.
#[derive(Clone, Copy, Debug, PartialEq, Eq, Structural)]
pub enum MyError {
    /// There is no such record.
    No,
    /// The store failed.
    Yes,
}

/// What `MyError::from` makes of a store's failure.
pub open spec fn reported(e: StoreError) -> MyError {
    match e {
        StoreError::RowNotFound => MyError::No,
        _ => MyError::Yes,
    }
}

impl From<StoreError> for MyError {
    fn from(value: StoreError) -> (r: MyError) {
        match value {
            StoreError::RowNotFound => MyError::No,
            _ => MyError::Yes,
        }
    }
}

impl vstd::std_specs::convert::FromSpecImpl<StoreError> for MyError {
    open spec fn obeys_from_spec() -> bool {
        true
    }

    open spec fn from_spec(value: StoreError) -> MyError {
        reported(value)
    }
}

impl MyError {
    /// The HTTP status that stands for the failure.
    pub fn status(&self) -> (r: u16)
        ensures
            r == match *self {
                MyError::No => 404u16,
                MyError::Yes => 500u16,
            },
    {
        match self {
            MyError::No => 404,
            MyError::Yes => 500,
        }
    }
}

} // verus!
