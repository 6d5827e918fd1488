//! A structured view of the netlink transport boundary: request header flags,
//! response frames, and the rule that turns a drained response stream into a
//! success or a kernel-reported protocol error.

use vstd::prelude::*;

use crate::iplink::LinkMessage;
use crate::iproute::RouteMsg;

verus! {

/// The operation of a request, wrapping the message it operates on.
#[derive(Debug)]
pub enum RtnlRequest {
    NewLink(LinkMessage),
    DelLink(LinkMessage),
    NewRoute(RouteMsg),
    DelRoute(RouteMsg),
}

/// A complete framed request as it is handed to the transport: the header
/// flags this library decided, and the operation with its message.
#[derive(Debug)]
pub struct NetlinkRequest {
    pub header: NetlinkHeader,
    pub payload: RtnlRequest,
}

/// Header flag: this message is a request.
pub const NLM_F_REQUEST: u16 = 0x0001;

/// Header flag: the kernel must acknowledge the request.
pub const NLM_F_ACK: u16 = 0x0004;

/// Header flag: the request must fail if the object already exists.
pub const NLM_F_EXCL: u16 = 0x0200;

/// Header flag: the object is created if it does not exist.
pub const NLM_F_CREATE: u16 = 0x0400;

/// The request header fields that this library decides; the transport fills
/// in lengths and sequence numbers of its own.
#[derive(Debug, PartialEq, Eq, Clone, Copy)]
pub struct NetlinkHeader {
    pub flags: u16,
}

/// One frame of a drained response stream, reduced to what the request
/// execution logic reads: either a kernel-reported error code, or anything
/// else (an acknowledgement, a data frame, or the end-of-stream marker).
#[derive(Debug, PartialEq, Eq, Clone, Copy)]
pub enum ResponseFrame {
    /// An error payload carrying the kernel's error code.
    Error(i32),
    /// Any non-error frame.
    Other,
}

/// The error cases of this library: a kernel protocol error, a missing link or
/// namespace, and an operating-system resource failure (open, close, mount,
/// unmount, unlink or fork), carrying the affected name and the OS error
/// text so that callers can report a descriptive message.
#[derive(Debug, PartialEq, Eq, Clone)]
pub enum IpError {
    /// The kernel answered a request with this error code.
    Protocol(i32),
    /// No link with this name exists.
    LinkNotFound(String),
    /// A file, descriptor, mount or process operation failed; `name` is the
    /// object it failed on and `os_err` the operating system's error text.
    Resource { name: String, os_err: String },
}

impl IpError {
    /// An exact copy of the error, for propagating one that is only held by
    /// reference.
    pub fn duplicate(&self) -> (r: IpError)
        ensures
            r == *self,
    {
        match self {
            IpError::Protocol(code) => IpError::Protocol(*code),
            IpError::LinkNotFound(name) => IpError::LinkNotFound(name.clone()),
            IpError::Resource { name, os_err } => IpError::Resource {
                name: name.clone(),
                os_err: os_err.clone(),
            },
        }
    }
}

/// The index of the first error frame in a response stream, if any.
pub open spec fn first_error_index(frames: Seq<ResponseFrame>) -> Option<int>
    decreases frames.len(),
{
    if frames.len() == 0 {
        None
    } else if frames[0] is Error {
        Some(0int)
    } else {
        match first_error_index(frames.drop_first()) {
            None => None,
            Some(i) => Some(i + 1),
        }
    }
}

/// The verdict of a fully drained response stream: the first error frame's
/// code, or success when no frame carried an error payload.
pub open spec fn response_verdict(frames: Seq<ResponseFrame>) -> Result<(), IpError> {
    match first_error_index(frames) {
        None => Ok(()),
        Some(i) => Err(IpError::Protocol(frames[i]->Error_0)),
    }
}

proof fn lemma_first_error_index_props(frames: Seq<ResponseFrame>)
    ensures
        match first_error_index(frames) {
            None => forall|i: int| 0 <= i < frames.len() ==> !(frames[i] is Error),
            Some(i) => 0 <= i < frames.len() && frames[i] is Error && forall|j: int|
                0 <= j < i ==> !(frames[j] is Error),
        },
    decreases frames.len(),
{
    if frames.len() > 0 && !(frames[0] is Error) {
        lemma_first_error_index_props(frames.drop_first());
        assert(forall|j: int|
            1 <= j < frames.len() ==> frames[j] == frames.drop_first()[j - 1]);
    }
}

/// Turns a fully drained response stream into the operation's result: the
/// earliest error frame decides, and a stream without one means success.
pub fn interpret_response(frames: &Vec<ResponseFrame>) -> (r: Result<(), IpError>)
    ensures
        r == response_verdict(frames@),
{
    let mut k: usize = 0;
    while k < frames.len()
        invariant
            0 <= k <= frames@.len(),
            forall|j: int| 0 <= j < k ==> !(frames@[j] is Error),
        decreases frames@.len() - k,
    {
        if let ResponseFrame::Error(code) = frames[k] {
            proof {
                lemma_first_error_index_props(frames@);
                assert(frames@[k as int] is Error);
                let i = first_error_index(frames@)->Some_0;
                assert(!(i < k as int));
                assert(!((k as int) < i));
            }
            return Err(IpError::Protocol(code));
        }
        k += 1;
    }
    proof {
        lemma_first_error_index_props(frames@);
    }
    Ok(())
}

} // verus!
