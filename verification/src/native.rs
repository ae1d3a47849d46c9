//! What an entry point of the engine hands back, and how that becomes a
//! result.

use crate::error::{Error, ErrorCode, NativeObject};
use crate::memory::Handle;
use vstd::prelude::*;

verus! {

/// The status that an entry point returned.
#[derive(Debug, Clone, PartialEq, Eq)]
pub enum Status {
    Success,
    Failure { code: ErrorCode, message: String },
}

/// The status of a call together with the address that it wrote to its
/// out-pointer; 0 stands for null.
#[derive(Debug, Clone, PartialEq, Eq)]
pub struct Reply {
    pub status: Status,
    pub out: usize,
}

/// A status as a result: success is `Ok`, and a failure carries the engine's
/// code and message as they came.
pub fn status_to_result(status: Status) -> (r: Result<(), Error>)
    ensures
        status is Success <==> r is Ok,
        status matches Status::Failure { code, message } ==> r == Err::<(), Error>(
            Error::Native { code, message },
        ),
{
    match status {
        Status::Success => Ok(()),
        Status::Failure { code, message } => Err(Error::Native { code, message }),
    }
}

/// What `reply` comes to for an entry point that hands out `object`.
pub open spec fn handle_outcome(reply: Reply, object: NativeObject, r: Result<Handle, Error>)
    -> bool {
    match reply.status {
        Status::Failure { code, message } => r == Err::<Handle, Error>(
            Error::Native { code, message },
        ),
        Status::Success => if reply.out == 0 {
            r == Err::<Handle, Error>(Error::NullResult { object })
        } else {
            r matches Ok(handle) && handle@ == reply.out
        },
    }
}

/// The handle that an entry point handed out. A failure status is an error
/// whatever the out-pointer holds; success with a null out-pointer is an
/// error of its own.
pub fn check_handle(reply: Reply, object: NativeObject) -> (r: Result<Handle, Error>)
    ensures
        handle_outcome(reply, object, r),
{
    match reply.status {
        Status::Failure { code, message } => Err(Error::Native { code, message }),
        Status::Success => match Handle::new(reply.out) {
            Some(handle) => Ok(handle),
            None => Err(Error::NullResult { object }),
        },
    }
}

} // verus!
